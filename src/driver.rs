//! The pipeline driver: which job or pipe segment runs next, given the
//! statuses that earlier ones returned.
use vstd::prelude::*;
use crate::job::JobKind;
use crate::status::{SUCCESS, TERMINATED};

verus! {

/// What the driver asks its caller to do next.
#[derive(Clone, Copy, Debug, PartialEq, Eq, Structural)]
pub enum Step {
    /// Run the job at `index` on its own, through the single-job path.
    Single { index: usize },
    /// Launch the jobs `start..=end` connected by pipes, then wait for them.
    Segment { start: usize, end: usize },
    /// The pipeline is over with `status`.
    Finish { status: i32 },
}

/// What follows a finished job or segment.
#[derive(Clone, Copy, Debug, PartialEq, Eq, Structural)]
pub enum Flow {
    /// Ask for the next step.
    Continue,
    /// A process was killed by a signal: send `SIGTERM` to the foreground
    /// group and end the pipeline with `TERMINATED`.
    Terminate,
}

/// Whether the edge `kind` that precedes a job, with the status that the job
/// before it returned, skips that job.
pub open spec fn gated(kind: JobKind, status: i32) -> bool {
    (kind == JobKind::And && status != SUCCESS) || (kind == JobKind::Or && status == SUCCESS)
}

/// The edge carried past a skipped job whose own edge is `next`: an `&&` that
/// skips a job ending in `||` becomes `||`, and an `||` that skips a job
/// ending in `&&` becomes `&&`.
pub open spec fn carried(kind: JobKind, next: JobKind) -> JobKind {
    if kind == JobKind::And && next == JobKind::Or {
        JobKind::Or
    } else if kind == JobKind::Or && next == JobKind::And {
        JobKind::And
    } else {
        kind
    }
}

/// From position `pos`, the first job that the short-circuit rules let run (or the end of
/// the list), with the edge in force before it.
pub open spec fn skip_from(kinds: Seq<JobKind>, pos: int, status: i32, kind: JobKind) -> (
    int,
    JobKind,
)
    decreases kinds.len() - pos,
{
    if 0 <= pos < kinds.len() && gated(kind, status) {
        skip_from(kinds, pos + 1, status, carried(kind, kinds[pos]))
    } else {
        (pos, kind)
    }
}

/// The last job of the pipe segment that starts at `i`: the first job from
/// `i` on whose edge is not a pipe, or the last job of the list.
pub open spec fn segment_end(kinds: Seq<JobKind>, i: int) -> int
    decreases kinds.len() - i,
{
    if 0 <= i && i + 1 < kinds.len() && kinds[i] is Pipe {
        segment_end(kinds, i + 1)
    } else {
        i
    }
}

/// The step to take at position `pos`, with `status` and `kind` carried from
/// the last job that ran.
pub open spec fn next_step_of(kinds: Seq<JobKind>, pos: int, status: i32, kind: JobKind) -> Step {
    let p = skip_from(kinds, pos, status, kind).0;
    if p >= kinds.len() {
        Step::Finish { status }
    } else if kinds[p] is Pipe {
        Step::Segment { start: p as usize, end: segment_end(kinds, p) as usize }
    } else {
        Step::Single { index: p as usize }
    }
}

/// The state of the driver over a list of job edges.
pub struct Driver {
    pub kinds: Vec<JobKind>,
    pub pos: usize,
    pub previous_status: i32,
    pub previous_kind: JobKind,
}

impl Driver {
    /// The driver's invariant: its position lies within the list, and a pipe
    /// never leaves the last job.
    pub open spec fn wf(&self) -> bool {
        &&& self.pos <= self.kinds@.len()
        &&& self.kinds@.len() > 0 ==> !(self.kinds@.last() is Pipe)
    }

    /// The step that this state asks for.
    pub open spec fn spec_next(&self) -> Step {
        next_step_of(self.kinds@, self.pos as int, self.previous_status, self.previous_kind)
    }

    /// A driver at the start of the job list `kinds`, as after a successful
    /// job followed by `&&`.
    pub fn new(kinds: Vec<JobKind>) -> (r: Driver)
        requires
            kinds@.len() > 0 ==> !(kinds@.last() is Pipe),
        ensures
            r.wf(),
            r.kinds@ == kinds@,
            r.pos == 0,
            r.previous_status == SUCCESS,
            r.previous_kind == JobKind::And,
    {
        Driver { kinds, pos: 0, previous_status: SUCCESS, previous_kind: JobKind::And }
    }

    /// Passes over the jobs that the short-circuit rules skip and says what
    /// runs next. The state then stands at the job or segment returned.
    pub fn next_step(&mut self) -> (r: Step)
        requires
            old(self).wf(),
        ensures
            final(self).wf(),
            r == old(self).spec_next(),
            r == final(self).spec_next(),
            final(self).kinds@ == old(self).kinds@,
            final(self).previous_status == old(self).previous_status,
            (final(self).pos as int, final(self).previous_kind) == skip_from(
                old(self).kinds@,
                old(self).pos as int,
                old(self).previous_status,
                old(self).previous_kind,
            ),
    {
        let ghost k = self.kinds@;
        let ghost st = self.previous_status;
        let ghost start_pos = self.pos as int;
        let ghost k0 = self.previous_kind;
        while self.pos < self.kinds.len() && ((self.previous_kind == JobKind::And
            && self.previous_status != SUCCESS) || (self.previous_kind == JobKind::Or
            && self.previous_status == SUCCESS))
            invariant
                self.wf(),
                self.kinds@ == k,
                self.previous_status == st,
                skip_from(k, self.pos as int, st, self.previous_kind) == skip_from(k, start_pos, st, k0),
            decreases self.kinds@.len() - self.pos,
        {
            let next = self.kinds[self.pos];
            if self.previous_kind == JobKind::And && next == JobKind::Or {
                self.previous_kind = JobKind::Or;
            } else if self.previous_kind == JobKind::Or && next == JobKind::And {
                self.previous_kind = JobKind::And;
            }
            self.pos = self.pos + 1;
        }
        proof {
            lemma_skip_stops(k, start_pos, st, k0);
        }
        if self.pos >= self.kinds.len() {
            return Step::Finish { status: self.previous_status };
        }
        match self.kinds[self.pos] {
            JobKind::Pipe(_) => {
                let end = self.segment_end_from(self.pos);
                Step::Segment { start: self.pos, end }
            },
            _ => Step::Single { index: self.pos },
        }
    }

    /// The last job of the pipe segment that starts at `start`.
    fn segment_end_from(&self, start: usize) -> (r: usize)
        requires
            start < self.kinds@.len(),
        ensures
            r as int == segment_end(self.kinds@, start as int),
    {
        let mut i = start;
        while i < self.kinds.len() - 1 && matches!(self.kinds[i], JobKind::Pipe(_))
            invariant
                start <= i < self.kinds@.len(),
                segment_end(self.kinds@, i as int) == segment_end(self.kinds@, start as int),
            decreases self.kinds@.len() - i,
        {
            i = i + 1;
        }
        i
    }

    /// Moves past `step`, the one last asked for, with `status` as the status
    /// in force: the job or segment's closing edge becomes the edge in force.
    fn advance(&mut self, step: Step, status: i32)
        requires
            old(self).wf(),
            step == old(self).spec_next(),
            !(step is Finish),
        ensures
            final(self).wf(),
            final(self).kinds@ == old(self).kinds@,
            final(self).previous_status == status,
            final(self).pos == last_of(step) + 1,
            final(self).previous_kind == old(self).kinds@[last_of(step)],
    {
        let n = self.kinds.len();
        proof {
            assert(n as int == self.kinds@.len());
            lemma_skip_in_range(
                self.kinds@,
                self.pos as int,
                self.previous_status,
                self.previous_kind,
            );
            let p = skip_from(self.kinds@, self.pos as int, self.previous_status, self.previous_kind).0;
            assert(p < self.kinds@.len());
            if let Step::Single { index } = step {
                assert(index as int == p);
            }
            if let Step::Segment { start, end } = step {
                assert(start as int == p);
                lemma_segment_end_in_range(self.kinds@, p);
                assert(end as int == segment_end(self.kinds@, p));
            }
        }
        match step {
            Step::Single { index } => {
                self.previous_kind = self.kinds[index];
                self.previous_status = status;
                self.pos = index + 1;
            },
            Step::Segment { start, end } => {
                self.previous_kind = self.kinds[end];
                self.previous_status = status;
                self.pos = end + 1;
            },
            Step::Finish { .. } => {},
        }
    }

    /// Records that `step`, the one last asked for, ran and returned `status`.
    /// The job or segment's closing edge becomes the edge in force, and the
    /// driver moves past it. A process killed by a signal, whether it ran
    /// alone or in a segment, ends the pipeline.
    pub fn complete(&mut self, step: Step, status: i32) -> (r: Flow)
        requires
            old(self).wf(),
            step == old(self).spec_next(),
            !(step is Finish),
        ensures
            final(self).wf(),
            final(self).kinds@ == old(self).kinds@,
            final(self).previous_status == status,
            final(self).pos == last_of(step) + 1,
            final(self).previous_kind == old(self).kinds@[last_of(step)],
            r == (if status == TERMINATED {
                Flow::Terminate
            } else {
                Flow::Continue
            }),
    {
        self.advance(step, status);
        if status == TERMINATED {
            Flow::Terminate
        } else {
            Flow::Continue
        }
    }

    /// Records that no process of the segment `step`, the one last asked
    /// for, could be started: the status in force stays as it was, and the
    /// driver moves past the segment with its closing edge in force.
    pub fn complete_unstarted(&mut self, step: Step)
        requires
            old(self).wf(),
            step == old(self).spec_next(),
            step is Segment,
        ensures
            final(self).wf(),
            final(self).kinds@ == old(self).kinds@,
            final(self).previous_status == old(self).previous_status,
            final(self).pos == last_of(step) + 1,
            final(self).previous_kind == old(self).kinds@[last_of(step)],
    {
        let status = self.previous_status;
        self.advance(step, status);
    }
}

/// The last job that `step` runs.
pub open spec fn last_of(step: Step) -> int {
    match step {
        Step::Single { index } => index as int,
        Step::Segment { start, end } => end as int,
        Step::Finish { .. } => 0,
    }
}

/// Whether `step` runs the job at `pos`, alone or at the head of a segment.
pub open spec fn runs_at(step: Step, pos: int) -> bool {
    match step {
        Step::Single { index } => index as int == pos,
        Step::Segment { start, end } => start as int == pos,
        Step::Finish { .. } => false,
    }
}

/// Short-circuit law: in `A && B` the job `B` runs exactly when `A` returned
/// success, and in `A || B` exactly when `A` did not.
pub proof fn lemma_short_circuit(kinds: Seq<JobKind>, pos: int, status: i32, kind: JobKind)
    requires
        0 <= pos < kinds.len(),
        kinds.len() <= usize::MAX,
        kind == JobKind::And || kind == JobKind::Or,
    ensures
        runs_at(next_step_of(kinds, pos, status, kind), pos) <==> (if kind == JobKind::And {
            status == SUCCESS
        } else {
            status != SUCCESS
        }),
{
    lemma_skip_in_range(kinds, pos, status, kind);
    let p = skip_from(kinds, pos, status, kind).0;
    if p < kinds.len() && kinds[p] is Pipe {
        lemma_segment_end_in_range(kinds, p);
    }
}

/// A segment that the driver launches joins at least two jobs, every job of
/// it but the last carries a pipe edge, and the last does not: so a pipeline
/// of one job never opens a pipe.
pub proof fn lemma_segment_is_pipe_run(kinds: Seq<JobKind>, pos: int, status: i32, kind: JobKind)
    requires
        0 <= pos <= kinds.len(),
        kinds.len() <= usize::MAX,
        kinds.len() > 0 ==> !(kinds.last() is Pipe),
    ensures
        next_step_of(kinds, pos, status, kind) matches Step::Segment { start, end } ==> {
            &&& start < end < kinds.len()
            &&& forall|j: int| start <= j < end ==> kinds[j] is Pipe
            &&& !(kinds[end as int] is Pipe)
        },
        kinds.len() == 1 ==> !(next_step_of(kinds, pos, status, kind) is Segment),
{
    lemma_skip_in_range(kinds, pos, status, kind);
    let p = skip_from(kinds, pos, status, kind).0;
    if p < kinds.len() && kinds[p] is Pipe {
        lemma_segment_end_in_range(kinds, p);
        if p + 1 < kinds.len() {
            assert(segment_end(kinds, p) == segment_end(kinds, p + 1));
            lemma_segment_end_in_range(kinds, p + 1);
        }
    }
}

/// Skipping stops for good: from where it stopped, it goes no further.
pub proof fn lemma_skip_stops(kinds: Seq<JobKind>, pos: int, status: i32, kind: JobKind)
    requires
        0 <= pos <= kinds.len(),
    ensures
        ({
            let (p, k) = skip_from(kinds, pos, status, kind);
            skip_from(kinds, p, status, k) == (p, k)
        }),
    decreases kinds.len() - pos,
{
    if pos < kinds.len() && gated(kind, status) {
        lemma_skip_stops(kinds, pos + 1, status, carried(kind, kinds[pos]));
    }
}

/// Skipping never moves backwards, and never past the end of the list.
pub proof fn lemma_skip_in_range(kinds: Seq<JobKind>, pos: int, status: i32, kind: JobKind)
    requires
        0 <= pos <= kinds.len(),
    ensures
        pos <= skip_from(kinds, pos, status, kind).0 <= kinds.len(),
        gated(kind, status) && pos < kinds.len() ==> skip_from(kinds, pos, status, kind).0 > pos,
    decreases kinds.len() - pos,
{
    if pos < kinds.len() && gated(kind, status) {
        lemma_skip_in_range(kinds, pos + 1, status, carried(kind, kinds[pos]));
    }
}

/// A segment ends within the list, at or after its start.
pub proof fn lemma_segment_end_in_range(kinds: Seq<JobKind>, i: int)
    requires
        0 <= i < kinds.len(),
    ensures
        i <= segment_end(kinds, i) < kinds.len(),
        !(kinds[segment_end(kinds, i)] is Pipe) || segment_end(kinds, i) == kinds.len() - 1,
        forall|j: int| i <= j < segment_end(kinds, i) ==> kinds[j] is Pipe,
    decreases kinds.len() - i,
{
    if i + 1 < kinds.len() && kinds[i] is Pipe {
        lemma_segment_end_in_range(kinds, i + 1);
    }
}

} // verus!
