//! Failures that the runtime and surface lifecycle can report.

use vstd::prelude::*;

verus! {

/// A failure observed at the binding's public surface.
///
/// All engine-boundary failures are converted to one of these variants at the
/// first call site that observes them; no raw engine error code escapes.
#[derive(Debug, Clone, Copy, PartialEq, Eq, Structural)]
pub enum Error {
    /// The engine returned a null handle from its runtime creation entry point.
    FailedToCreateRuntime,
    /// A runtime was still live when a second construction was attempted.
    RuntimeAlreadyExists,
    /// The runtime's engine context has not signalled initialization yet.
    RuntimeNotInitialization,
    /// The engine returned a null handle from its surface creation entry point.
    FailedToCreateWebView,
}

impl Error {
    /// A short human-readable name for the failure.
    pub fn describe(&self) -> (r: &'static str)
        ensures
            r@ == match self {
                Error::FailedToCreateRuntime => "failed to create runtime"@,
                Error::RuntimeAlreadyExists => "runtime already exists"@,
                Error::RuntimeNotInitialization => "runtime not initialized"@,
                Error::FailedToCreateWebView => "failed to create webview"@,
            },
    {
        match self {
            Error::FailedToCreateRuntime => "failed to create runtime",
            Error::RuntimeAlreadyExists => "runtime already exists",
            Error::RuntimeNotInitialization => "runtime not initialized",
            Error::FailedToCreateWebView => "failed to create webview",
        }
    }
}

} // verus!
