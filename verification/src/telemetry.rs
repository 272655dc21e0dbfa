use vstd::prelude::*;

verus! {

/// A latch that lets the process-wide logging be set up once: the first
/// call of [`TracingLatch::ensure_initialized`] says to do it, every later
/// one says that it is done.
#[derive(Debug)]
pub struct TracingLatch {
    initialized: bool,
}

impl TracingLatch {
    /// Whether the logging has been set up.
    pub closed spec fn is_initialized(&self) -> bool {
        self.initialized
    }

    /// A latch for a process that has not set up its logging yet.
    pub fn new() -> (latch: TracingLatch)
        ensures
            !latch.is_initialized(),
    {
        TracingLatch { initialized: false }
    }

    /// Closes the latch. The answer is `true` for the call that closed it,
    /// which is the one that has to set the logging up.
    pub fn ensure_initialized(&mut self) -> (first: bool)
        ensures
            final(self).is_initialized(),
            first == !old(self).is_initialized(),
    {
        let first = !self.initialized;
        self.initialized = true;
        first
    }

    /// Whether the logging has been set up.
    pub fn initialized(&self) -> (yes: bool)
        ensures
            yes == self.is_initialized(),
    {
        self.initialized
    }
}

} // verus!
