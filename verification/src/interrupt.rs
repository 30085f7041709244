use vstd::prelude::*;

verus! {

/// The interrupt protocol's state: a single flag, set when an interrupt
/// has been requested since it was last consumed. The asynchronous signal
/// context does nothing but set the flag; the read loop consumes it once
/// per iteration at the loop's top, prints a one-line notice when it was
/// set, and keeps running — an interrupt never ends the shell.
pub struct InterruptBridge {
    signaled: bool,
}

impl InterruptBridge {
    /// Whether an interrupt is pending.
    pub closed spec fn is_signaled(&self) -> bool {
        self.signaled
    }

    /// Starts idle: no interrupt pending.
    pub fn new() -> (r: InterruptBridge)
        ensures
            !r.is_signaled(),
    {
        InterruptBridge { signaled: false }
    }

    /// Records that an interrupt was requested. Requesting it again
    /// before the loop consumes it changes nothing further.
    pub fn notify(&mut self)
        ensures
            final(self).is_signaled(),
    {
        self.signaled = true;
    }

    /// Consumes the pending interrupt, if any: reports whether one was
    /// pending and leaves the bridge idle either way, so one interrupt is
    /// answered by exactly one notice.
    pub fn poll(&mut self) -> (was: bool)
        ensures
            was == old(self).is_signaled(),
            !final(self).is_signaled(),
    {
        let was = self.signaled;
        self.signaled = false;
        was
    }
}

} // verus!
