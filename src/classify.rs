//! Turning parsed jobs into refined jobs.
use vstd::prelude::*;
use vstd::string::*;
use crate::job::{views, JobKind, ParsedJob, Program, RefinedJob};

verus! {

/// A first word that names a directory rather than a command: it starts with
/// `.` or `/`, or ends with `/`.
pub open spec fn implicit_cd(s: Seq<char>) -> bool {
    s.len() > 0 && (s[0] == '.' || s[0] == '/' || s.last() == '/')
}

/// Whether `argument`, standing first on a command line, asks to change
/// directory to it.
pub fn is_implicit_cd(argument: &str) -> (r: bool)
    ensures
        r == implicit_cd(argument@),
{
    let n = argument.unicode_len();
    if n == 0 {
        return false;
    }
    let first = argument.get_char(0);
    let last = argument.get_char(n - 1);
    first == '.' || first == '/' || last == '/'
}

/// What classification makes of a parsed job with arguments `args` and command
/// `command`, where `registered` tells whether the builtin registry holds
/// `command`: the program kind, the name and the argument vector.
pub open spec fn refined(command: Seq<char>, args: Seq<Seq<char>>, registered: bool) -> (
    Program,
    Seq<char>,
    Seq<Seq<char>>,
) {
    if implicit_cd(args[0]) {
        (Program::Builtin, seq!['c', 'd'], seq![seq!['c', 'd']] + args)
    } else if registered {
        (Program::Builtin, command, args)
    } else {
        (Program::External, command, args.skip(1))
    }
}

/// Classifies a parsed job: a first word naming a directory becomes the `cd`
/// builtin applied to the whole command line; a registered builtin (as
/// `registered` tells) stays a builtin; anything else is an external program.
/// The job's kind is kept, and no stdio handle is attached yet.
pub fn refine<F>(job: ParsedJob, registered: bool) -> (r: (RefinedJob<F>, JobKind))
    requires
        job.args@.len() > 0,
    ensures
        (r.0.program, r.0.name@, views(r.0.args@)) == refined(
            job.command@,
            views(job.args@),
            registered,
        ),
        r.0.stdin.is_none(),
        r.0.stdout.is_none(),
        r.0.stderr.is_none(),
        r.1 == job.kind,
{
    let ParsedJob { command, args, kind } = job;
    let ghost a = views(args@);
    if is_implicit_cd(args[0].as_str()) {
        proof {
            reveal_strlit("cd");
            assert("cd"@ =~= seq!['c', 'd']);
        }
        let cd = String::from_str("cd");
        let mut argv: Vec<String> = Vec::new();
        argv.push(cd.clone());
        proof {
            assert(a.take(0) =~= Seq::<Seq<char>>::empty());
            assert(views(argv@) =~= seq![seq!['c', 'd']]);
        }
        let mut i: usize = 0;
        while i < args.len()
            invariant
                0 <= i <= args.len(),
                a == views(args@),
                cd@ == seq!['c', 'd'],
                views(argv@) =~= seq![seq!['c', 'd']] + a.take(i as int),
            decreases args.len() - i,
        {
            let w = args[i].clone();
            let ghost v0 = argv@;
            argv.push(w);
            proof {
                assert(views(argv@) =~= views(v0).push(w@));
                assert(a.take(i + 1) =~= a.take(i as int).push(w@));
            }
            i = i + 1;
        }
        proof {
            assert(a.take(args@.len() as int) =~= a);
        }
        let job = RefinedJob {
            program: Program::Builtin,
            name: cd,
            args: argv,
            stdin: None,
            stdout: None,
            stderr: None,
        };
        (job, kind)
    } else if registered {
        let job = RefinedJob {
            program: Program::Builtin,
            name: command,
            args: args,
            stdin: None,
            stdout: None,
            stderr: None,
        };
        (job, kind)
    } else {
        let mut rest: Vec<String> = Vec::new();
        let mut i: usize = 1;
        while i < args.len()
            invariant
                1 <= i <= args.len(),
                a == views(args@),
                views(rest@) =~= a.subrange(1, i as int),
            decreases args.len() - i,
        {
            let w = args[i].clone();
            let ghost v0 = rest@;
            rest.push(w);
            proof {
                assert(views(rest@) =~= views(v0).push(w@));
                assert(a.subrange(1, i + 1) =~= a.subrange(1, i as int).push(w@));
            }
            i = i + 1;
        }
        proof {
            assert(a.subrange(1, args@.len() as int) =~= a.skip(1));
        }
        let job = RefinedJob {
            program: Program::External,
            name: command,
            args: rest,
            stdin: None,
            stdout: None,
            stderr: None,
        };
        (job, kind)
    }
}

/// The diagnostic for a program that could not be spawned: `not_found` tells
/// whether the system reported that it does not exist; `error` is the
/// system's description of any other failure.
pub open spec fn spawn_failure(short: Seq<char>, not_found: bool, error: Seq<char>) -> Seq<char> {
    if not_found {
        "ion: command not found: "@ + short
    } else {
        "ion: error spawning process: "@ + error
    }
}

/// Builds the diagnostic printed when spawning a single job fails.
pub fn spawn_failure_message(short: &str, not_found: bool, error: &str) -> (r: String)
    ensures
        r@ == spawn_failure(short@, not_found, error@),
{
    if not_found {
        let mut m = String::from_str("ion: command not found: ");
        m.append(short);
        m
    } else {
        let mut m = String::from_str("ion: error spawning process: ");
        m.append(error);
        m
    }
}

} // verus!
