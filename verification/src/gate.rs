//! The process initialization gate: the engine's global setup call must
//! run exactly once per process, however many session handles are
//! constructed. `InitGate` is the decision of that protocol; the caller
//! keeps one gate per process (behind its own synchronization) and
//! performs the setup call exactly when `acquire` says so.

use vstd::prelude::*;

verus! {

/// Whether the one-time global engine setup has run in this process.
pub struct InitGate {
    done: bool,
}

impl InitGate {
    /// Whether the setup has already run.
    pub closed spec fn spec_done(self) -> bool {
        self.done
    }

    /// A gate in a fresh process: the setup has not run.
    pub closed spec fn spec_new() -> InitGate {
        InitGate { done: false }
    }

    /// Whether an acquisition in this state obliges the caller to
    /// perform the global setup call.
    pub open spec fn spec_runs(self) -> bool {
        !self.spec_done()
    }

    /// The state after any acquisition: the setup has run.
    pub closed spec fn spec_acquired(self) -> InitGate {
        InitGate { done: true }
    }

    /// A fresh gate for a process that has not yet run the setup.
    pub fn new() -> (g: InitGate)
        ensures
            g == InitGate::spec_new(),
            !g.spec_done(),
    {
        InitGate { done: false }
    }

    /// Claim the one-time setup: returns whether this caller is the one
    /// that must perform it. After any call the answer stays no for good.
    pub fn acquire(&mut self) -> (run: bool)
        ensures
            *final(self) == old(self).spec_acquired(),
            run == old(self).spec_runs(),
            final(self).spec_done(),
    {
        let run = !self.done;
        self.done = true;
        run
    }
}

/// The global setup runs exactly once per process: a fresh gate obliges
/// its first acquirer to run it, and after any acquisition no later
/// acquirer is ever obliged again — however many session handles are
/// constructed.
pub proof fn lemma_setup_runs_exactly_once(g: InitGate)
    ensures
        InitGate::spec_new().spec_runs(),
        !g.spec_acquired().spec_runs(),
{
}

} // verus!
