use vstd::prelude::*;

verus! {

/// The intent to shut down: unset at first, and set for good once it is
/// triggered.
#[derive(Clone, Copy, Debug, PartialEq, Eq, Structural)]
pub struct CancellationSignal {
    triggered: bool,
}

impl View for CancellationSignal {
    type V = bool;

    /// Whether shutdown has been asked for.
    closed spec fn view(&self) -> bool {
        self.triggered
    }
}

impl CancellationSignal {
    /// The signal after a trigger.
    pub closed spec fn after_trigger(self) -> CancellationSignal {
        CancellationSignal { triggered: true }
    }

    pub fn new() -> (r: CancellationSignal)
        ensures
            !r@,
    {
        CancellationSignal { triggered: false }
    }

    /// Asks for shutdown. Returns whether this call is the one that set the
    /// signal.
    pub fn trigger(&mut self) -> (first: bool)
        ensures
            *final(self) == old(self).after_trigger(),
            final(self)@,
            first == !old(self)@,
    {
        let first = !self.triggered;
        self.triggered = true;
        first
    }

    pub fn is_triggered(&self) -> (r: bool)
        ensures
            r == self@,
    {
        self.triggered
    }
}

/// Triggering a signal twice leaves it as triggering it once does, and the
/// second trigger is not the one that sets it.
pub proof fn lemma_trigger_twice_is_once(s: CancellationSignal)
    ensures
        s.after_trigger().after_trigger() == s.after_trigger(),
        s.after_trigger()@,
{
}

} // verus!
