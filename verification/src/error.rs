use vstd::prelude::*;

verus! {

/// Everything that can go wrong. None of these is recoverable.
#[derive(Clone, Copy, Debug, PartialEq, Eq, Structural)]
pub enum Error {
    /// No backend attaches to the native display.
    NoDisplayBackend,
    /// No surface configuration matches the window.
    NoCompatibleConfig,
    /// The driver refused to create a context.
    ContextCreationFailed,
    /// A context was acquired while it was already current.
    DoubleAcquire,
    /// A context was left current and can no longer be used.
    StuckContext,
    /// The backend refused to present a surface.
    SwapFailed,
    /// An attachment or a resize left a framebuffer incomplete.
    FramebufferIncomplete,
}

impl Error {
    /// Whether the error can only arise before the first frame.
    pub open spec fn at_startup_spec(self) -> bool {
        self == Error::NoDisplayBackend || self == Error::NoCompatibleConfig
            || self == Error::ContextCreationFailed
    }

    /// Whether the error reports a defect in the caller's use of the
    /// ownership protocol rather than a condition of the machine.
    pub open spec fn is_protocol_violation_spec(self) -> bool {
        self == Error::DoubleAcquire || self == Error::StuckContext
    }

    #[verifier::when_used_as_spec(at_startup_spec)]
    pub fn at_startup(self) -> (r: bool)
        ensures
            r == self.at_startup_spec(),
    {
        match self {
            Error::NoDisplayBackend => true,
            Error::NoCompatibleConfig => true,
            Error::ContextCreationFailed => true,
            _ => false,
        }
    }

    #[verifier::when_used_as_spec(is_protocol_violation_spec)]
    pub fn is_protocol_violation(self) -> (r: bool)
        ensures
            r == self.is_protocol_violation_spec(),
    {
        match self {
            Error::DoubleAcquire => true,
            Error::StuckContext => true,
            _ => false,
        }
    }
}

} // verus!
