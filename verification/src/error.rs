//! The errors of the core.

use vstd::prelude::*;

verus! {

/// Everything that can go wrong in the core.
#[derive(Clone, Copy, Debug, PartialEq, Eq, Structural)]
pub enum Error {
    /// The loader or the driver is not available.
    Initialization,
    /// The driver enumerated no physical device.
    NoDevice,
    /// No enumerated device has a queue family with the requested capabilities.
    NoSuitableDevice,
    /// The window system refused a presentable surface.
    SurfaceCreation,
    /// No memory type satisfies both the resource and the location hint.
    NoCompatibleMemoryType,
    /// A compatible memory type exists, but the allocation cannot be made.
    Allocation,
    /// A command buffer or fence was used outside its state machine.
    InvalidState,
    /// The device rejected or failed a submission.
    Submission,
    /// A wait ran out of time; the caller may wait again.
    WaitTimeout,
    /// An allocator was shut down while allocations were outstanding.
    AllocatorLeak,
    /// An allocation was used after it had been freed.
    UseAfterFree,
    /// The primary window could not be brought up.
    Bootstrap,
}

impl Error {
    /// Whether the caller may simply try again. Only a timed-out wait is
    /// retryable; every other failure ends the operation that reported it.
    pub open spec fn spec_is_retryable(self) -> bool {
        self == Error::WaitTimeout
    }

    /// Whether the caller may simply try again.
    #[verifier::when_used_as_spec(spec_is_retryable)]
    pub fn is_retryable(self) -> (r: bool)
        ensures
            r == self.spec_is_retryable(),
    {
        match self {
            Error::WaitTimeout => true,
            _ => false,
        }
    }

    /// Whether the failure ends the process: only a failed bootstrap of the
    /// primary window does.
    pub open spec fn spec_is_fatal(self) -> bool {
        self == Error::Bootstrap
    }

    /// Whether the failure ends the process.
    #[verifier::when_used_as_spec(spec_is_fatal)]
    pub fn is_fatal(self) -> (r: bool)
        ensures
            r == self.spec_is_fatal(),
    {
        match self {
            Error::Bootstrap => true,
            _ => false,
        }
    }
}

} // verus!
