//! Failures that a capture can report.

use vstd::prelude::*;

verus! {

/// Why a stream could not be built, or why it ended early. Each failure that
/// the capture engine reports carries the engine's own diagnostic.
#[derive(Clone, Debug, PartialEq, Eq)]
pub enum Error {
    /// A setting of the session, or its activation, was refused.
    SessionConfig { msg: String },
    /// The filter expression `filter` could not be compiled.
    FilterCompile { filter: String, msg: String },
    /// The compiled filter could not be bound to the session.
    FilterApply { msg: String },
    /// A dispatch call reported a hard failure in mid-stream.
    Dispatch { msg: String },
    /// The background lane did not carry out a dispatch cycle.
    Scheduling { msg: String },
}

impl Error {
    /// The diagnostic that came with the failure.
    pub open spec fn spec_diagnostic(&self) -> String {
        match *self {
            Error::SessionConfig { msg } => msg,
            Error::FilterCompile { msg, .. } => msg,
            Error::FilterApply { msg } => msg,
            Error::Dispatch { msg } => msg,
            Error::Scheduling { msg } => msg,
        }
    }

    /// The diagnostic that came with the failure.
    pub fn diagnostic(&self) -> (d: &String)
        ensures
            *d == self.spec_diagnostic(),
    {
        match self {
            Error::SessionConfig { msg } => msg,
            Error::FilterCompile { msg, .. } => msg,
            Error::FilterApply { msg } => msg,
            Error::Dispatch { msg } => msg,
            Error::Scheduling { msg } => msg,
        }
    }

    /// Failures of construction: the stream never starts. The other two
    /// kinds end a stream that was already running.
    pub open spec fn spec_is_construction_failure(&self) -> bool {
        *self is SessionConfig || *self is FilterCompile || *self is FilterApply
    }

    /// Whether the failure is one of construction.
    pub fn is_construction_failure(&self) -> (b: bool)
        ensures
            b == self.spec_is_construction_failure(),
    {
        match self {
            Error::SessionConfig { .. } => true,
            Error::FilterCompile { .. } => true,
            Error::FilterApply { .. } => true,
            Error::Dispatch { .. } => false,
            Error::Scheduling { .. } => false,
        }
    }
}

} // verus!
