//! Jobs as the parser hands them over, and jobs once classified.
use vstd::prelude::*;
use vstd::string::*;

verus! {

/// Which output streams of a job feed a pipe or a file.
#[derive(Clone, Copy, Debug, PartialEq, Eq, Structural)]
pub enum RedirectFrom {
    Stdout,
    Stderr,
    Both,
}

/// The edge that leaves a job towards its successor.
#[derive(Clone, Copy, Debug, PartialEq, Eq, Structural)]
pub enum JobKind {
    Pipe(RedirectFrom),
    And,
    Or,
    Background,
    Last,
}

/// A job as parsed: `args[0]` is the command name.
pub struct ParsedJob {
    pub command: String,
    pub args: Vec<String>,
    pub kind: JobKind,
}

/// How a classified job is run.
#[derive(Clone, Copy, Debug, PartialEq, Eq, Structural)]
pub enum Program {
    /// A program to be spawned; `args` excludes the program name.
    External,
    /// A builtin of the shell; `args` is the full argument vector.
    Builtin,
}

/// A classified job together with the stdio handles attached to it.
/// `F` is the handle type of an open file or pipe end; dropping a job
/// releases its handles.
pub struct RefinedJob<F> {
    pub program: Program,
    pub name: String,
    pub args: Vec<String>,
    pub stdin: Option<F>,
    pub stdout: Option<F>,
    pub stderr: Option<F>,
}

/// The views of a sequence of strings.
pub open spec fn views(s: Seq<String>) -> Seq<Seq<char>> {
    s.map_values(|w: String| w@)
}

/// The words joined, with `sep` between each two.
pub open spec fn joined(words: Seq<Seq<char>>, sep: Seq<char>) -> Seq<char>
    decreases words.len(),
{
    if words.len() == 0 {
        seq![]
    } else if words.len() == 1 {
        words[0]
    } else {
        joined(words.drop_last(), sep) + sep + words.last()
    }
}

/// Joins the strings with `sep` between each two.
pub fn join(words: &Vec<String>, sep: &str) -> (r: String)
    ensures
        r@ == joined(views(words@), sep@),
{
    let mut r = String::new();
    let mut i: usize = 0;
    while i < words.len()
        invariant
            0 <= i <= words.len(),
            r@ == joined(views(words@).take(i as int), sep@),
        decreases words.len() - i,
    {
        proof {
            let ws = views(words@);
            assert(ws.take(i + 1).drop_last() =~= ws.take(i as int));
            assert(ws.take(i + 1).last() == words@[i as int]@);
            if i == 0 {
                assert(ws.take(1) =~= seq![words@[0]@]);
            }
        }
        if i > 0 {
            r.append(sep);
        }
        r.append(words[i].as_str());
        i = i + 1;
    }
    proof {
        assert(views(words@).take(words@.len() as int) =~= views(words@));
    }
    r
}

impl<F> RefinedJob<F> {
    /// The full command line of the job, as words.
    pub open spec fn argv(&self) -> Seq<Seq<char>> {
        match self.program {
            Program::External => seq![self.name@] + views(self.args@),
            Program::Builtin => views(self.args@),
        }
    }

    /// The short label of a job: its command name.
    pub fn short(&self) -> (r: String)
        ensures
            r@ == self.name@,
    {
        self.name.clone()
    }

    /// The long label of a job: its full command line, words separated by a space.
    pub fn long(&self) -> (r: String)
        ensures
            r@ == joined(self.argv(), seq![' ']),
    {
        proof {
            reveal_strlit(" ");
        }
        match self.program {
            Program::External => {
                let mut words: Vec<String> = Vec::new();
                words.push(self.name.clone());
                let mut i: usize = 0;
                while i < self.args.len()
                    invariant
                        0 <= i <= self.args.len(),
                        views(words@) =~= seq![self.name@] + views(self.args@).take(i as int),
                    decreases self.args.len() - i,
                {
                    let a = self.args[i].clone();
                    let ghost w0 = words@;
                    words.push(a);
                    proof {
                        assert(views(words@) =~= views(w0).push(a@));
                        assert(views(self.args@).take(i + 1) =~= views(self.args@).take(i as int).push(a@));
                    }
                    i = i + 1;
                }
                proof {
                    assert(views(self.args@).take(self.args@.len() as int) =~= views(self.args@));
                    assert(" "@ =~= seq![' ']);
                }
                join(&words, " ")
            },
            Program::Builtin => {
                proof {
                    assert(" "@ =~= seq![' ']);
                }
                join(&self.args, " ")
            },
        }
    }

    /// Attaches `f` as the job's stdin, releasing any handle held there before.
    pub fn set_stdin(&mut self, f: F)
        ensures
            final(self).stdin == Some(f),
            final(self).stdout == old(self).stdout,
            final(self).stderr == old(self).stderr,
            final(self).program == old(self).program,
            final(self).name == old(self).name,
            final(self).args == old(self).args,
    {
        self.stdin = Some(f);
    }

    /// Attaches `f` as the job's stdout, releasing any handle held there before.
    pub fn set_stdout(&mut self, f: F)
        ensures
            final(self).stdout == Some(f),
            final(self).stdin == old(self).stdin,
            final(self).stderr == old(self).stderr,
            final(self).program == old(self).program,
            final(self).name == old(self).name,
            final(self).args == old(self).args,
    {
        self.stdout = Some(f);
    }

    /// Attaches `f` as the job's stderr, releasing any handle held there before.
    pub fn set_stderr(&mut self, f: F)
        ensures
            final(self).stderr == Some(f),
            final(self).stdin == old(self).stdin,
            final(self).stdout == old(self).stdout,
            final(self).program == old(self).program,
            final(self).name == old(self).name,
            final(self).args == old(self).args,
    {
        self.stderr = Some(f);
    }
}

} // verus!
