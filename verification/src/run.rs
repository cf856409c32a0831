//! The orchestrator's run state: how many tasks were dispatched and joined,
//! and which phase the run is in. The transitions force one task per page,
//! every task joined before the write step, and a write step that happens
//! exactly once — the driver only performs the I/O each transition allows.
use vstd::prelude::*;

verus! {

/// The phases of one run, in order.
#[derive(Clone, Copy, PartialEq, Eq, Structural)]
pub enum Phase {
    /// Tasks are being spawned, one per page.
    Dispatching,
    /// All tasks are spawned; they are being waited for.
    Joining,
    /// All tasks are joined; the output is being written.
    Writing,
    /// The run is over.
    Done,
}

/// The run state of the orchestrator: page count, progress counters, phase.
pub struct Run {
    /// How many tasks this run dispatches: one per page.
    pub total: usize,
    /// How many tasks were dispatched so far.
    pub dispatched: usize,
    /// How many tasks were joined so far.
    pub joined: usize,
    /// Where the run stands.
    pub phase: Phase,
}

impl Run {
    /// No task is joined before it is dispatched or dispatched beyond the
    /// page count; joining starts only when all tasks are dispatched, and
    /// writing only when all tasks are joined.
    pub open spec fn wf(self) -> bool {
        &&& self.joined <= self.dispatched <= self.total
        &&& (self.phase == Phase::Joining ==> self.dispatched == self.total)
        &&& (self.phase == Phase::Writing || self.phase == Phase::Done ==> self.dispatched
            == self.total && self.joined == self.total)
    }

    /// A fresh run over `total` pages, ready to dispatch.
    pub fn new(total: usize) -> (r: Run)
        ensures
            r.wf(),
            r.total == total,
            r.dispatched == 0,
            r.joined == 0,
            r.phase == Phase::Dispatching,
    {
        Run { total, dispatched: 0, joined: 0, phase: Phase::Dispatching }
    }

    /// Records that one more task was spawned.
    pub fn note_dispatched(&mut self)
        requires
            old(self).wf(),
            old(self).phase == Phase::Dispatching,
            old(self).dispatched < old(self).total,
        ensures
            final(self).wf(),
            *final(self) == (Run { dispatched: (old(self).dispatched + 1) as usize, ..*old(self) }),
    {
        self.dispatched = self.dispatched + 1;
    }

    /// Moves to waiting for tasks, once one was spawned for every page.
    pub fn begin_join(&mut self)
        requires
            old(self).wf(),
            old(self).phase == Phase::Dispatching,
            old(self).dispatched == old(self).total,
        ensures
            final(self).wf(),
            *final(self) == (Run { phase: Phase::Joining, ..*old(self) }),
    {
        self.phase = Phase::Joining;
    }

    /// Records that one more task finished and was waited for — whether it
    /// succeeded or failed, since failures are contained in their task.
    pub fn note_joined(&mut self)
        requires
            old(self).wf(),
            old(self).phase == Phase::Joining,
            old(self).joined < old(self).total,
        ensures
            final(self).wf(),
            *final(self) == (Run { joined: (old(self).joined + 1) as usize, ..*old(self) }),
    {
        self.joined = self.joined + 1;
    }

    /// Moves to the write step. Only a run whose every dispatched task was
    /// joined can take this step, so the write never races a task.
    pub fn begin_write(&mut self)
        requires
            old(self).wf(),
            old(self).phase == Phase::Joining,
            old(self).joined == old(self).total,
        ensures
            final(self).wf(),
            *final(self) == (Run { phase: Phase::Writing, ..*old(self) }),
    {
        self.phase = Phase::Writing;
    }

    /// Ends the run after the output was written.
    pub fn finish(&mut self)
        requires
            old(self).wf(),
            old(self).phase == Phase::Writing,
        ensures
            final(self).wf(),
            *final(self) == (Run { phase: Phase::Done, ..*old(self) }),
    {
        self.phase = Phase::Done;
    }
}

/// Once a run reaches its write step, exactly as many tasks were dispatched
/// and joined as there are pages: no task leaks past the join barrier and
/// no write starts early.
pub proof fn lemma_write_after_all_joined(r: Run)
    requires
        r.wf(),
        r.phase == Phase::Writing,
    ensures
        r.dispatched == r.total,
        r.joined == r.total,
{
}

} // verus!
