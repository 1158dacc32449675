//! Single-flight admission guard.
//!
//! At most one logical operation may mutate the editor state at a time. The
//! [`ModeManager`] admits an operation by moving from [`Mode::Idle`] to
//! [`Mode::Run`] with a fresh generation number; every rescheduled
//! continuation of a long operation re-checks its generation with
//! [`ModeManager::match_run_id`] and abandons itself when it has been
//! superseded.

use vstd::prelude::*;

verus! {

/// Whether an operation is in flight, and if so under which generation.
#[derive(Clone, Copy, Debug, PartialEq, Eq, Structural)]
pub enum Mode {
    Idle,
    Run(u16),
}

/// Admission guard: a mode plus a monotonically increasing generation
/// counter. Generations are never reused within one manager's lifetime.
#[derive(Clone, Copy, Debug)]
pub struct ModeManager {
    pub mode: Mode,
    pub id: u16,
}

impl ModeManager {
    /// The running generation, when any, always equals the counter.
    pub open spec fn wf(self) -> bool {
        match self.mode {
            Mode::Run(g) => g == self.id,
            Mode::Idle => true,
        }
    }

    /// The transition taken by [`ModeManager::to_run`].
    pub open spec fn spec_to_run(self) -> (ModeManager, u16) {
        let g = (self.id + 1) as u16;
        (ModeManager { mode: Mode::Run(g), id: g }, g)
    }

    /// The transition taken by [`ModeManager::to_idle`].
    pub open spec fn spec_to_idle(self) -> ModeManager {
        ModeManager { mode: Mode::Idle, id: self.id }
    }

    /// The transition taken by [`ModeManager::try_run`].
    pub open spec fn spec_try_run(self) -> (ModeManager, Option<u16>) {
        if self.mode is Idle {
            let (m, g) = self.spec_to_run();
            (m, Some(g))
        } else {
            (self, None)
        }
    }

    pub fn new() -> (r: ModeManager)
        ensures
            r.mode == Mode::Idle,
            r.id == 0,
            r.wf(),
    {
        ModeManager { mode: Mode::Idle, id: 0 }
    }

    pub fn is_idle(&self) -> (r: bool)
        ensures
            r == (self.mode is Idle),
    {
        matches!(self.mode, Mode::Idle)
    }

    /// True exactly when the manager is still running the operation of
    /// generation `id`: a continuation observing `false` has been superseded
    /// and must abandon its work.
    pub fn match_run_id(&self, id: u16) -> (r: bool)
        ensures
            r == (self.mode == Mode::Run(id)),
    {
        self.mode == Mode::Run(id)
    }

    /// Admit an operation unconditionally, granting the next generation.
    pub fn to_run(&mut self) -> (r: u16)
        requires
            old(self).id < u16::MAX,
        ensures
            (*final(self), r) == old(self).spec_to_run(),
            final(self).id == old(self).id + 1,
            final(self).mode == Mode::Run(final(self).id),
            final(self).wf(),
    {
        self.id = self.id + 1;
        self.mode = Mode::Run(self.id);
        self.id
    }

    /// Complete an operation: return to idle. The counter keeps its value, so
    /// a later admission still gets a strictly greater generation.
    pub fn to_idle(&mut self)
        ensures
            *final(self) == old(self).spec_to_idle(),
            final(self).mode == Mode::Idle,
            final(self).id == old(self).id,
            final(self).wf(),
    {
        self.mode = Mode::Idle;
    }

    /// The admission check performed by every user-triggered operation:
    /// grants a fresh generation when idle, declines when an operation is
    /// already in flight.
    pub fn try_run(&mut self) -> (r: Option<u16>)
        requires
            old(self).mode is Idle ==> old(self).id < u16::MAX,
        ensures
            (*final(self), r) == old(self).spec_try_run(),
            old(self).mode is Idle ==> r == Some((old(self).id + 1) as u16)
                && final(self).mode == Mode::Run((old(self).id + 1) as u16)
                && final(self).id == old(self).id + 1,
            !(old(self).mode is Idle) ==> r is None && *final(self) == *old(self),
            old(self).wf() ==> final(self).wf(),
    {
        if self.is_idle() {
            Some(self.to_run())
        } else {
            None
        }
    }
}

/// Law: the guard is single-flight. Two admission attempts with no completion
/// in between yield a grant and then a refusal that changes nothing.
pub proof fn lemma_single_flight(m: ModeManager)
    requires
        m.mode is Idle,
        m.id < u16::MAX,
    ensures
        ({
            let (m1, r1) = m.spec_try_run();
            let (m2, r2) = m1.spec_try_run();
            &&& r1 == Some((m.id + 1) as u16)
            &&& r2 is None
            &&& m2 == m1
        }),
{
}

/// Law: generations grow strictly. No transition decreases the counter,
/// every grant equals the counter's new value, and in a well-formed manager
/// the running generation never exceeds the counter — so the generation
/// granted after a completion is strictly greater than every generation
/// granted before it.
pub proof fn lemma_generation_monotonic(m: ModeManager)
    requires
        m.id < u16::MAX,
    ensures
        m.spec_to_run().0.id > m.id,
        m.spec_to_idle().id == m.id,
        m.spec_try_run().0.id >= m.id,
        m.spec_try_run().1 matches Some(g) ==> g == m.spec_try_run().0.id,
        m.wf() ==> (m.mode matches Mode::Run(g) ==> g <= m.id),
        ({
            let (m1, r1) = m.spec_to_idle().spec_try_run();
            &&& r1 == Some((m.id + 1) as u16)
            &&& m1.id == m.id + 1
        }),
{
}

} // verus!
