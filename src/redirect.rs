//! Binding the pipeline's redirections and pipe ends to its jobs.
use vstd::prelude::*;
use vstd::string::*;
use crate::job::{JobKind, RedirectFrom, RefinedJob};

verus! {

/// A here-string as fed to a job: the string, with a newline added unless it
/// already ends in one.
pub open spec fn with_newline(s: Seq<char>) -> Seq<char> {
    if s.len() > 0 && s.last() == '\n' {
        s
    } else {
        s.push('\n')
    }
}

/// Makes a here-string end in exactly the newline it would be fed with.
pub fn here_string_input(s: String) -> (r: String)
    ensures
        r@ == with_newline(s@),
{
    let n = s.as_str().unicode_len();
    if n > 0 && s.as_str().get_char(n - 1) == '\n' {
        s
    } else {
        let mut t = s;
        proof {
            reveal_strlit("\n");
        }
        t.append("\n");
        t
    }
}

/// Whether two jobs agree but for their stdio handles.
pub open spec fn same_command<F>(a: RefinedJob<F>, b: RefinedJob<F>) -> bool {
    a.program == b.program && a.name == b.name && a.args == b.args
}

/// Whether `after` is `before` with the output `file` bound as `from` asks
/// (`copy` being a second handle of the same file, needed when both streams
/// go there); when `copy` is missing for both streams nothing is bound.
pub open spec fn bound_output<F>(
    before: RefinedJob<F>,
    after: RefinedJob<F>,
    from: RedirectFrom,
    file: F,
    copy: Option<F>,
) -> bool {
    &&& same_command(before, after)
    &&& after.stdin == before.stdin
    &&& match from {
        RedirectFrom::Stdout => after.stdout == Some(file) && after.stderr == before.stderr,
        RedirectFrom::Stderr => after.stderr == Some(file) && after.stdout == before.stdout,
        RedirectFrom::Both => match copy {
            Some(c) => after.stdout == Some(file) && after.stderr == Some(c),
            None => after.stdout == before.stdout && after.stderr == before.stderr,
        },
    }
}

/// Binds an output `file` to the job's stdout, stderr or both. Returns false
/// when both streams were asked for and no second handle `copy` could be had;
/// the job is then left as it was.
pub fn bind_output<F>(job: &mut RefinedJob<F>, from: RedirectFrom, file: F, copy: Option<F>) -> (r:
    bool)
    ensures
        r == !(from == RedirectFrom::Both && copy.is_none()),
        bound_output(*old(job), *final(job), from, file, copy),
{
    match from {
        RedirectFrom::Stdout => {
            job.set_stdout(file);
            true
        },
        RedirectFrom::Stderr => {
            job.set_stderr(file);
            true
        },
        RedirectFrom::Both => match copy {
            Some(c) => {
                job.set_stdout(file);
                job.set_stderr(c);
                true
            },
            None => false,
        },
    }
}

/// Connects two adjacent stages of a pipe segment with a pipe: `reader`
/// becomes the child's stdin, and `writer` (with `writer_copy`, its second
/// handle, for both streams) the parent's output as `mode` asks. Returns
/// false when the parent's output could not be bound.
pub fn connect<F>(
    parent: &mut RefinedJob<F>,
    child: &mut RefinedJob<F>,
    mode: RedirectFrom,
    reader: F,
    writer: F,
    writer_copy: Option<F>,
) -> (r: bool)
    ensures
        r == !(mode == RedirectFrom::Both && writer_copy.is_none()),
        bound_output(*old(parent), *final(parent), mode, writer, writer_copy),
        same_command(*old(child), *final(child)),
        final(child).stdin == Some(reader),
        final(child).stdout == old(child).stdout,
        final(child).stderr == old(child).stderr,
{
    child.set_stdin(reader);
    bind_output(parent, mode, writer, writer_copy)
}

/// Attaches `input` as the stdin of the pipeline's first job. Returns false,
/// changing nothing, when there is no job.
pub fn bind_input<F>(jobs: &mut Vec<RefinedJob<F>>, input: F) -> (r: bool)
    ensures
        r == (old(jobs)@.len() > 0),
        final(jobs)@.len() == old(jobs)@.len(),
        r ==> {
            &&& same_command(old(jobs)@[0], final(jobs)@[0])
            &&& final(jobs)@[0].stdin == Some(input)
            &&& final(jobs)@[0].stdout == old(jobs)@[0].stdout
            &&& final(jobs)@[0].stderr == old(jobs)@[0].stderr
        },
        forall|i: int| 1 <= i < old(jobs)@.len() ==> final(jobs)@[i] == old(jobs)@[i],
{
    if jobs.len() == 0 {
        return false;
    }
    let mut first = jobs.remove(0);
    first.set_stdin(input);
    jobs.insert(0, first);
    true
}

/// Binds the pipeline's output `file` to its last job as `from` asks (see
/// `bind_output`). Returns false, changing nothing, when there is no job or
/// when both streams were asked for without a second handle.
pub fn bind_last_output<F>(
    jobs: &mut Vec<RefinedJob<F>>,
    from: RedirectFrom,
    file: F,
    copy: Option<F>,
) -> (r: bool)
    ensures
        r == (old(jobs)@.len() > 0 && !(from == RedirectFrom::Both && copy.is_none())),
        final(jobs)@.len() == old(jobs)@.len(),
        old(jobs)@.len() > 0 ==> bound_output(
            old(jobs)@.last(),
            final(jobs)@.last(),
            from,
            file,
            copy,
        ),
        forall|i: int| 0 <= i < old(jobs)@.len() - 1 ==> final(jobs)@[i] == old(jobs)@[i],
{
    match jobs.pop() {
        None => false,
        Some(last) => {
            let mut last = last;
            let r = bind_output(&mut last, from, file, copy);
            jobs.push(last);
            r
        },
    }
}

/// The label under which a pipeline runs in the background: its pretty form
/// `pretty` when its last job is sent to the background, else none.
pub fn check_if_background_job(kinds: &Vec<JobKind>, pretty: String) -> (r: Option<String>)
    requires
        kinds@.len() > 0,
    ensures
        r == (if kinds@.last() == JobKind::Background {
            Some(pretty)
        } else {
            None
        }),
{
    if kinds[kinds.len() - 1] == JobKind::Background {
        Some(pretty)
    } else {
        None
    }
}

} // verus!
