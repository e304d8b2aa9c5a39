//! Process groups of pipe segments, and the waiter that releases each stage's
//! handles as its process exits.
use vstd::prelude::*;
use crate::job::{join, joined, Program, RefinedJob};
use crate::status::NO_SUCH_COMMAND;

verus! {

/// How the attempt to start one stage of a segment went.
#[derive(Clone, Copy, Debug, PartialEq, Eq, Structural)]
pub enum LaunchResult {
    /// The stage runs as process `pid`.
    Started { pid: u32 },
    /// The program of an external stage could not be spawned.
    SpawnFailed,
    /// The shell could not fork for a builtin stage.
    ForkFailed,
}

/// What follows the attempt to start one stage.
#[derive(Clone, Copy, Debug, PartialEq, Eq, Structural)]
pub enum LaunchAction {
    /// Go on with the segment, first giving the terminal to `take_terminal`
    /// if there is one.
    Proceed { take_terminal: Option<u32> },
    /// End the whole pipeline with `status`.
    Abort { status: i32 },
}

/// The long labels of the jobs.
pub open spec fn long_labels<F>(cs: Seq<RefinedJob<F>>) -> Seq<Seq<char>> {
    cs.map_values(|c: RefinedJob<F>| joined(c.argv(), seq![' ']))
}

/// The processes of one pipe segment as they are launched, with the jobs that
/// hold the parent's side of the segment's pipes.
pub struct ProcessGroup<F> {
    /// The group that the next process joins; 0 before the first launch,
    /// which asks the process to lead a group of its own.
    pub pgid: u32,
    /// The pids launched, in order.
    pub children: Vec<u32>,
    /// The job of each pid, at the same position.
    pub commands: Vec<RefinedJob<F>>,
    /// The group each pid joined when it was launched.
    pub joined: Ghost<Seq<u32>>,
}

impl<F> ProcessGroup<F> {
    /// The group's invariant: one job and one joined group per pid, and every
    /// pid joined the group led by the first.
    pub open spec fn wf(&self) -> bool {
        &&& self.children@.len() == self.commands@.len()
        &&& self.children@.len() == self.joined@.len()
        &&& (self.children@.len() == 0 <==> self.pgid == 0)
        &&& self.children@.len() > 0 ==> self.pgid == self.children@[0]
        &&& forall|i: int| 0 <= i < self.joined@.len() ==> self.joined@[i] == self.pgid
    }

    /// An empty segment, whose first process will lead the group.
    pub fn new() -> (r: ProcessGroup<F>)
        ensures
            r.wf(),
            r.pgid == 0,
            r.children@.len() == 0,
    {
        ProcessGroup { pgid: 0, children: Vec::new(), commands: Vec::new(), joined: Ghost(Seq::empty()) }
    }

    /// Records that `job` was launched as process `pid` (which joined the
    /// group `self.pgid`, or led a new one if that is 0), and adds `pid` to the
    /// foreground `roster`. Returns the group that must be given the terminal:
    /// the new group, when this is the first process and the segment runs in
    /// the foreground.
    pub fn launched(
        &mut self,
        roster: &mut Vec<u32>,
        pid: u32,
        job: RefinedJob<F>,
        foreground: bool,
    ) -> (take_terminal: Option<u32>)
        requires
            old(self).wf(),
            pid > 0,
        ensures
            final(self).wf(),
            final(self).pgid == (if old(self).pgid == 0 {
                pid
            } else {
                old(self).pgid
            }),
            final(self).children@ == old(self).children@.push(pid),
            final(self).commands@ == old(self).commands@.push(job),
            final(self).joined@ == old(self).joined@.push(final(self).pgid),
            final(roster)@ == old(roster)@.push(pid),
            take_terminal == (if old(self).pgid == 0 && foreground {
                Some(pid)
            } else {
                None
            }),
    {
        let mut take = None;
        if self.pgid == 0 {
            self.pgid = pid;
            if foreground {
                take = Some(pid);
            }
        }
        self.joined = Ghost(self.joined@.push(self.pgid));
        self.children.push(pid);
        self.commands.push(job);
        roster.push(pid);
        take
    }

    /// Records how the attempt to start `job` went. A started stage joins the
    /// segment as `launched` says. A program that could not be spawned ends
    /// the pipeline with `NO_SUCH_COMMAND`. A builtin that could not be forked
    /// is left out and the segment goes on. Only a started stage changes the
    /// segment and the `roster`; the job of any other is released.
    pub fn record_launch(
        &mut self,
        roster: &mut Vec<u32>,
        result: LaunchResult,
        job: RefinedJob<F>,
        foreground: bool,
    ) -> (r: LaunchAction)
        requires
            old(self).wf(),
            result matches LaunchResult::Started { pid } ==> pid > 0,
            result is SpawnFailed ==> job.program == Program::External,
            result is ForkFailed ==> job.program == Program::Builtin,
        ensures
            final(self).wf(),
            match result {
                LaunchResult::Started { pid } => {
                    &&& final(self).pgid == (if old(self).pgid == 0 {
                        pid
                    } else {
                        old(self).pgid
                    })
                    &&& final(self).children@ == old(self).children@.push(pid)
                    &&& final(self).commands@ == old(self).commands@.push(job)
                    &&& final(self).joined@ == old(self).joined@.push(final(self).pgid)
                    &&& final(roster)@ == old(roster)@.push(pid)
                    &&& r == LaunchAction::Proceed {
                        take_terminal: if old(self).pgid == 0 && foreground {
                            Some(pid)
                        } else {
                            None
                        },
                    }
                },
                _ => {
                    &&& final(self).pgid == old(self).pgid
                    &&& final(self).children@ == old(self).children@
                    &&& final(self).commands@ == old(self).commands@
                    &&& final(self).joined@ == old(self).joined@
                    &&& final(roster)@ == old(roster)@
                    &&& r == (if result is SpawnFailed {
                        LaunchAction::Abort { status: NO_SUCH_COMMAND }
                    } else {
                        LaunchAction::Proceed { take_terminal: None }
                    })
                },
            },
    {
        match result {
            LaunchResult::Started { pid } => {
                let take_terminal = self.launched(roster, pid, job, foreground);
                LaunchAction::Proceed { take_terminal }
            },
            LaunchResult::SpawnFailed => LaunchAction::Abort { status: NO_SUCH_COMMAND },
            LaunchResult::ForkFailed => LaunchAction::Proceed { take_terminal: None },
        }
    }

    /// Hands the segment to the waiter, or returns `None` when no process of
    /// it was launched.
    pub fn into_watch(self) -> (r: Option<Watch<F>>)
        requires
            self.wf(),
        ensures
            self.children@.len() == 0 <==> r.is_none(),
            r matches Some(w) ==> w.wf() && w.pgid == self.pgid && w.children@ == self.children@
                && w.commands@ == self.commands@,
    {
        if self.children.len() == 0 {
            None
        } else {
            Some(wait(self.children, self.commands))
        }
    }
}

/// Every process of a segment joined one group, the one led by the first
/// process launched.
pub proof fn lemma_one_group<F>(g: ProcessGroup<F>)
    requires
        g.wf(),
    ensures
        forall|i: int| 0 <= i < g.joined@.len() ==> g.joined@[i] == g.children@[0],
{
}

/// What the waiter of a segment watches: the group, the pid whose exit
/// status is the segment's, the label of the segment, and the stages still
/// running with their jobs.
pub struct Watch<F> {
    pub pgid: u32,
    pub last_pid: u32,
    pub label: String,
    pub children: Vec<u32>,
    pub commands: Vec<RefinedJob<F>>,
}

impl<F> Watch<F> {
    /// One job per pid still watched.
    pub open spec fn wf(&self) -> bool {
        self.children@.len() == self.commands@.len()
    }

    /// Records that process `pid` exited: its stage leaves the watch, and its
    /// job, with the pipe ends that the parent held for it, is released, so
    /// the next stage sees the end of its input. An unknown pid changes
    /// nothing.
    pub fn child_exited(&mut self, pid: i32)
        requires
            old(self).wf(),
        ensures
            final(self).wf(),
            final(self).pgid == old(self).pgid,
            final(self).last_pid == old(self).last_pid,
            final(self).label == old(self).label,
            (exists|i: int| 0 <= i < old(self).children@.len() && old(self).children@[i] as int == pid as int)
                ==> exists|i: int|
                0 <= i < old(self).children@.len() && old(self).children@[i] as int == pid as int
                    && (forall|j: int| 0 <= j < i ==> old(self).children@[j] as int != pid as int)
                    && final(self).children@ == old(self).children@.remove(i)
                    && final(self).commands@ == old(self).commands@.remove(i),
            !(exists|i: int|
                0 <= i < old(self).children@.len() && old(self).children@[i] as int == pid as int)
                ==> final(self).children@ == old(self).children@ && final(self).commands@ == old(
                self,
            ).commands@,
    {
        let mut i: usize = 0;
        while i < self.children.len()
            invariant
                self.wf(),
                0 <= i <= self.children@.len(),
                self.pgid == old(self).pgid,
                self.last_pid == old(self).last_pid,
                self.label == old(self).label,
                self.children@ == old(self).children@,
                self.commands@ == old(self).commands@,
                forall|j: int| 0 <= j < i ==> self.children@[j] as int != pid as int,
            decreases self.children@.len() - i,
        {
            if pid >= 0 && self.children[i] == pid as u32 {
                self.children.remove(i);
                // The released job goes out of scope here, closing its handles.
                let _released = self.commands.remove(i);
                return;
            }
            i = i + 1;
        }
    }
}

/// Sets up the wait for a launched segment: its group is that of the first
/// pid, its status is that of the last, and its label is the long labels of
/// its jobs joined by ` | `.
pub fn wait<F>(children: Vec<u32>, commands: Vec<RefinedJob<F>>) -> (r: Watch<F>)
    requires
        children@.len() > 0,
        children@.len() == commands@.len(),
    ensures
        r.wf(),
        r.pgid == children@[0],
        r.last_pid == children@.last(),
        r.label@ == joined(long_labels(commands@), " | "@),
        r.children@ == children@,
        r.commands@ == commands@,
{
    let mut labels: Vec<String> = Vec::new();
    let mut i: usize = 0;
    while i < commands.len()
        invariant
            0 <= i <= commands@.len(),
            crate::job::views(labels@) =~= long_labels(commands@).take(i as int),
        decreases commands@.len() - i,
    {
        let l = commands[i].long();
        let ghost v0 = labels@;
        labels.push(l);
        proof {
            assert(crate::job::views(labels@) =~= crate::job::views(v0).push(l@));
        }
        i = i + 1;
    }
    proof {
        assert(long_labels(commands@).take(commands@.len() as int) =~= long_labels(commands@));
    }
    let label = join(&labels, " | ");
    let pgid = children[0];
    let last_pid = children[children.len() - 1];
    Watch { pgid, last_pid, label, children, commands }
}

} // verus!
