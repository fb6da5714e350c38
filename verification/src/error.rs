//! How a request can fail, and what a failed render means for the handle that
//! was used.

use vstd::prelude::*;

verus! {

/// Why a request failed. All three reach the caller as a failed request; none
/// is retried here.
#[derive(Clone, Copy, Debug, PartialEq, Eq, Structural)]
pub enum RenderError {
    /// No handle could be created: the backend is out of resources or gone.
    BackendUnavailable,
    /// Navigation, waiting for navigation, or extraction failed on a handle.
    RenderFailed,
    /// The caller gave up before the request completed.
    Cancelled,
}

/// The backend call at which a render failed. The calls are made in this
/// order, and the first failure ends the job.
#[derive(Clone, Copy, Debug, PartialEq, Eq, Structural)]
pub enum RenderFailure {
    /// Loading the target was refused.
    Navigation,
    /// The handle did not report the end of navigation.
    NavigationTimeout,
    /// The document could not be read from the handle.
    Extraction,
}

/// What a failure says about the handle.
#[derive(Clone, Copy, Debug, PartialEq, Eq, Structural)]
pub enum FailureClass {
    /// The target was bad; the handle is as good as before.
    TargetFatal,
    /// The handle itself is stuck or dead and must not be used again.
    ResourceFatal,
}

/// The policy on failed renders. A refused load is blamed on the target: the
/// handle never left the page it was on and is reused. A handle that does not
/// finish navigating, or does not give up its document, is taken to be stuck
/// and is discarded.
pub open spec fn classify_spec(failure: RenderFailure) -> FailureClass {
    match failure {
        RenderFailure::Navigation => FailureClass::TargetFatal,
        RenderFailure::NavigationTimeout => FailureClass::ResourceFatal,
        RenderFailure::Extraction => FailureClass::ResourceFatal,
    }
}

/// Classifies a failed render by the call at which it failed.
pub fn classify(failure: RenderFailure) -> (class: FailureClass)
    ensures
        class == classify_spec(failure),
{
    match failure {
        RenderFailure::Navigation => FailureClass::TargetFatal,
        RenderFailure::NavigationTimeout => FailureClass::ResourceFatal,
        RenderFailure::Extraction => FailureClass::ResourceFatal,
    }
}

} // verus!
