use pipe_exec::classify::{is_implicit_cd, refine, spawn_failure_message};
use pipe_exec::driver::{Driver, Flow, Step};
use pipe_exec::group::{wait, LaunchAction, LaunchResult, ProcessGroup};
use pipe_exec::job::{join, JobKind, ParsedJob, Program, RedirectFrom, RefinedJob};
use pipe_exec::redirect::{
    bind_input, bind_last_output, bind_output, check_if_background_job, connect, here_string_input,
};
use pipe_exec::status::{FAILURE, NO_SUCH_COMMAND, SUCCESS, TERMINATED};

fn parsed(words: &[&str], kind: JobKind) -> ParsedJob {
    ParsedJob {
        command: words[0].to_string(),
        args: words.iter().map(|w| w.to_string()).collect(),
        kind,
    }
}

fn external(words: &[&str]) -> RefinedJob<u32> {
    refine::<u32>(parsed(words, JobKind::Last), false).0
}

#[test]
fn exit_codes() {
    assert_eq!(SUCCESS, 0);
    assert_eq!(FAILURE, 1);
    assert_eq!(NO_SUCH_COMMAND, 127);
    assert_eq!(TERMINATED, 143);
}

#[test]
fn implicit_cd_words() {
    assert!(is_implicit_cd("."));
    assert!(is_implicit_cd(".."));
    assert!(is_implicit_cd("/tmp"));
    assert!(is_implicit_cd("src/"));
    assert!(is_implicit_cd(".foo"));
    assert!(!is_implicit_cd("echo"));
    assert!(!is_implicit_cd("a/b"));
    assert!(!is_implicit_cd(""));
}

#[test]
fn refine_external_drops_program_name() {
    let (job, kind) = refine::<u32>(parsed(&["echo", "hi"], JobKind::And), false);
    assert_eq!(kind, JobKind::And);
    assert_eq!(job.program, Program::External);
    assert_eq!(job.name, "echo");
    assert_eq!(job.args, vec!["hi".to_string()]);
    assert!(job.stdin.is_none() && job.stdout.is_none() && job.stderr.is_none());
}

#[test]
fn refine_registered_builtin_keeps_argv() {
    let (job, kind) = refine::<u32>(parsed(&["echo", "hi"], JobKind::Or), true);
    assert_eq!(kind, JobKind::Or);
    assert_eq!(job.program, Program::Builtin);
    assert_eq!(job.name, "echo");
    assert_eq!(job.args, vec!["echo".to_string(), "hi".to_string()]);
}

#[test]
fn refine_path_becomes_cd() {
    let (job, _) = refine::<u32>(parsed(&["/nonexistent/prog"], JobKind::Last), false);
    assert_eq!(job.program, Program::Builtin);
    assert_eq!(job.name, "cd");
    assert_eq!(job.args, vec!["cd".to_string(), "/nonexistent/prog".to_string()]);
    let (job, _) = refine::<u32>(parsed(&["src/", "x"], JobKind::Last), true);
    assert_eq!(job.args, vec!["cd".to_string(), "src/".to_string(), "x".to_string()]);
}

#[test]
fn labels() {
    let job = external(&["echo", "a", "b"]);
    assert_eq!(job.short(), "echo");
    assert_eq!(job.long(), "echo a b");
    let (b, _) = refine::<u32>(parsed(&["cd", "/tmp"], JobKind::Last), true);
    assert_eq!(b.long(), "cd /tmp");
    assert_eq!(external(&["ls"]).long(), "ls");
}

#[test]
fn join_words() {
    let w = vec!["a".to_string(), "bc".to_string(), "d".to_string()];
    assert_eq!(join(&w, " | "), "a | bc | d");
    assert_eq!(join(&Vec::new(), ","), "");
    assert_eq!(join(&vec!["x".to_string()], ","), "x");
}

#[test]
fn spawn_failure_messages() {
    assert_eq!(
        spawn_failure_message("/nonexistent/prog", true, "ignored"),
        "ion: command not found: /nonexistent/prog"
    );
    assert_eq!(
        spawn_failure_message("x", false, "permission denied"),
        "ion: error spawning process: permission denied"
    );
}

#[test]
fn driver_single_job() {
    // echo hi
    let mut d = Driver::new(vec![JobKind::Last]);
    let s = d.next_step();
    assert_eq!(s, Step::Single { index: 0 });
    assert_eq!(d.complete(s, 0), Flow::Continue);
    assert_eq!(d.next_step(), Step::Finish { status: 0 });
}

#[test]
fn driver_empty_list_succeeds() {
    let mut d = Driver::new(Vec::new());
    assert_eq!(d.next_step(), Step::Finish { status: SUCCESS });
}

#[test]
fn driver_pipe_segment() {
    // echo a | tr a b
    let mut d = Driver::new(vec![JobKind::Pipe(RedirectFrom::Stdout), JobKind::Last]);
    let s = d.next_step();
    assert_eq!(s, Step::Segment { start: 0, end: 1 });
    assert_eq!(d.complete(s, 0), Flow::Continue);
    assert_eq!(d.next_step(), Step::Finish { status: 0 });
}

#[test]
fn driver_failed_pipe_segment() {
    // echo a | grep b
    let mut d = Driver::new(vec![JobKind::Pipe(RedirectFrom::Stdout), JobKind::Last]);
    let s = d.next_step();
    d.complete(s, 1);
    assert_eq!(d.next_step(), Step::Finish { status: 1 });
}

#[test]
fn driver_and_skips_after_failure() {
    // false && echo x
    let mut d = Driver::new(vec![JobKind::And, JobKind::Last]);
    let s = d.next_step();
    assert_eq!(s, Step::Single { index: 0 });
    d.complete(s, 1);
    assert_eq!(d.next_step(), Step::Finish { status: 1 });
}

#[test]
fn driver_and_runs_after_success() {
    let mut d = Driver::new(vec![JobKind::And, JobKind::Last]);
    let s = d.next_step();
    d.complete(s, 0);
    assert_eq!(d.next_step(), Step::Single { index: 1 });
}

#[test]
fn driver_or_runs_after_failure() {
    // false || echo y
    let mut d = Driver::new(vec![JobKind::Or, JobKind::Last]);
    let s = d.next_step();
    d.complete(s, 1);
    let s = d.next_step();
    assert_eq!(s, Step::Single { index: 1 });
    d.complete(s, 0);
    assert_eq!(d.next_step(), Step::Finish { status: 0 });
}

#[test]
fn driver_or_skips_after_success() {
    let mut d = Driver::new(vec![JobKind::Or, JobKind::Last]);
    let s = d.next_step();
    d.complete(s, 0);
    assert_eq!(d.next_step(), Step::Finish { status: 0 });
}

#[test]
fn driver_skip_carries_or() {
    // false && a || b : `a` is skipped, `b` runs
    let mut d = Driver::new(vec![JobKind::And, JobKind::Or, JobKind::Last]);
    let s = d.next_step();
    d.complete(s, 1);
    assert_eq!(d.next_step(), Step::Single { index: 2 });
}

#[test]
fn driver_segment_then_and() {
    // a | b | c && d
    let kinds = vec![
        JobKind::Pipe(RedirectFrom::Stdout),
        JobKind::Pipe(RedirectFrom::Both),
        JobKind::And,
        JobKind::Last,
    ];
    let mut d = Driver::new(kinds);
    let s = d.next_step();
    assert_eq!(s, Step::Segment { start: 0, end: 2 });
    d.complete(s, 0);
    assert_eq!(d.previous_kind, JobKind::And);
    assert_eq!(d.next_step(), Step::Single { index: 3 });
}

#[test]
fn driver_terminated_segment_stops() {
    let mut d = Driver::new(vec![JobKind::Pipe(RedirectFrom::Stdout), JobKind::Last]);
    let s = d.next_step();
    assert_eq!(d.complete(s, TERMINATED), Flow::Terminate);
}

#[test]
fn driver_terminated_single_stops() {
    // a killed `a` in `a || b` ends the pipeline
    let mut d = Driver::new(vec![JobKind::Or, JobKind::Last]);
    let s = d.next_step();
    assert_eq!(s, Step::Single { index: 0 });
    assert_eq!(d.complete(s, TERMINATED), Flow::Terminate);
}

#[test]
fn driver_unstarted_segment_keeps_status() {
    // false || a | b && c, where no stage of `a | b` starts
    let kinds = vec![
        JobKind::Or,
        JobKind::Pipe(RedirectFrom::Stdout),
        JobKind::And,
        JobKind::Last,
    ];
    let mut d = Driver::new(kinds);
    let s = d.next_step();
    d.complete(s, 1);
    let s = d.next_step();
    assert_eq!(s, Step::Segment { start: 1, end: 2 });
    d.complete_unstarted(s);
    assert_eq!(d.previous_status, 1);
    assert_eq!(d.previous_kind, JobKind::And);
    assert_eq!(d.next_step(), Step::Finish { status: 1 });
}

#[test]
fn driver_next_step_is_stable() {
    let mut d = Driver::new(vec![JobKind::And, JobKind::Or, JobKind::Last]);
    let s = d.next_step();
    d.complete(s, 1);
    let first = d.next_step();
    assert_eq!(d.next_step(), first);
}

#[test]
fn background_label() {
    // sleep 5 &
    assert_eq!(
        check_if_background_job(&vec![JobKind::Background], "sleep 5 &".to_string()),
        Some("sleep 5 &".to_string())
    );
    assert_eq!(check_if_background_job(&vec![JobKind::Last], "echo hi".to_string()), None);
}

#[test]
fn here_string_gets_one_newline() {
    let r = here_string_input("hello".to_string());
    assert_eq!(r, "hello\n");
    assert_eq!(r.len(), 6);
    assert_eq!(here_string_input("a\n".to_string()), "a\n");
    assert_eq!(here_string_input(String::new()), "\n");
}

#[test]
fn output_binding() {
    let mut j = external(&["ls"]);
    assert!(bind_output(&mut j, RedirectFrom::Stdout, 5, None));
    assert_eq!((j.stdout, j.stderr), (Some(5), None));
    let mut j = external(&["ls"]);
    assert!(bind_output(&mut j, RedirectFrom::Stderr, 5, None));
    assert_eq!((j.stdout, j.stderr), (None, Some(5)));
    let mut j = external(&["ls"]);
    assert!(bind_output(&mut j, RedirectFrom::Both, 5, Some(6)));
    assert_eq!((j.stdout, j.stderr), (Some(5), Some(6)));
    let mut j = external(&["ls"]);
    assert!(!bind_output(&mut j, RedirectFrom::Both, 5, None));
    assert_eq!((j.stdout, j.stderr), (None, None));
}

#[test]
fn pipe_connection() {
    let mut a = external(&["echo", "a"]);
    let mut b = external(&["tr", "a", "b"]);
    assert!(connect(&mut a, &mut b, RedirectFrom::Stdout, 3, 4, None));
    assert_eq!(b.stdin, Some(3));
    assert_eq!(a.stdout, Some(4));
    assert_eq!(a.stdin, None);
}

#[test]
fn pipeline_endpoints() {
    let mut jobs = vec![external(&["a"]), external(&["b"]), external(&["c"])];
    assert!(bind_input(&mut jobs, 7));
    assert!(bind_last_output(&mut jobs, RedirectFrom::Stdout, 8, None));
    assert_eq!(jobs[0].stdin, Some(7));
    assert_eq!(jobs[0].name, "a");
    assert_eq!(jobs[1].stdin, None);
    assert_eq!(jobs[2].stdout, Some(8));
    assert_eq!(jobs[2].name, "c");
    let mut none: Vec<RefinedJob<u32>> = Vec::new();
    assert!(!bind_input(&mut none, 1));
    assert!(!bind_last_output(&mut none, RedirectFrom::Stdout, 1, None));
}

#[test]
fn process_group_follows_first_pid() {
    let mut g: ProcessGroup<u32> = ProcessGroup::new();
    let mut roster = vec![99];
    assert_eq!(g.pgid, 0);
    assert_eq!(g.launched(&mut roster, 41, external(&["echo", "a"]), true), Some(41));
    assert_eq!(g.pgid, 41);
    assert_eq!(g.launched(&mut roster, 42, external(&["tr", "a", "b"]), true), None);
    assert_eq!(g.pgid, 41);
    assert_eq!(roster, vec![99, 41, 42]);
    assert_eq!(g.children, vec![41, 42]);
    let w = g.into_watch().unwrap();
    assert_eq!(w.pgid, 41);
    assert_eq!(w.last_pid, 42);
    assert_eq!(w.label, "echo a | tr a b");
}

#[test]
fn background_group_keeps_terminal() {
    let mut g: ProcessGroup<u32> = ProcessGroup::new();
    let mut roster = Vec::new();
    assert_eq!(g.launched(&mut roster, 7, external(&["sleep", "5"]), false), None);
    assert_eq!(g.pgid, 7);
}

#[test]
fn empty_group_has_no_watch() {
    let g: ProcessGroup<u32> = ProcessGroup::new();
    assert!(g.into_watch().is_none());
}

#[test]
fn watch_releases_exited_stage() {
    let jobs = vec![external(&["a"]), external(&["b"]), external(&["c"])];
    let mut w = wait(vec![10, 11, 12], jobs);
    assert_eq!((w.pgid, w.last_pid), (10, 12));
    assert_eq!(w.label, "a | b | c");
    w.child_exited(11);
    assert_eq!(w.children, vec![10, 12]);
    assert_eq!(w.commands.len(), 2);
    assert_eq!(w.commands[1].name, "c");
    w.child_exited(77);
    assert_eq!(w.children, vec![10, 12]);
    w.child_exited(-1);
    assert_eq!(w.children, vec![10, 12]);
    w.child_exited(10);
    assert_eq!(w.children, vec![12]);
    assert_eq!(w.commands[0].name, "c");
    assert_eq!((w.pgid, w.last_pid), (10, 12));
}

#[test]
fn launch_outcomes() {
    let mut g: ProcessGroup<u32> = ProcessGroup::new();
    let mut roster = Vec::new();
    let (b, _) = refine::<u32>(parsed(&["cd", "/"], JobKind::Last), true);
    assert_eq!(
        g.record_launch(&mut roster, LaunchResult::ForkFailed, b, true),
        LaunchAction::Proceed { take_terminal: None }
    );
    assert_eq!(g.pgid, 0);
    assert!(g.children.is_empty() && roster.is_empty());
    assert_eq!(
        g.record_launch(&mut roster, LaunchResult::Started { pid: 30 }, external(&["a"]), true),
        LaunchAction::Proceed { take_terminal: Some(30) }
    );
    assert_eq!(
        g.record_launch(&mut roster, LaunchResult::SpawnFailed, external(&["nope"]), true),
        LaunchAction::Abort { status: NO_SUCH_COMMAND }
    );
    assert_eq!(g.children, vec![30]);
    assert_eq!(roster, vec![30]);
    assert_eq!(g.pgid, 30);
}
