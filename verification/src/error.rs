//! Failures that the renderer core reports.

use vstd::prelude::*;

verus! {

/// A handle that names no live record of a registry: one that was never
/// issued, or whose record has been removed. The registry is left as it was.
#[derive(Debug, Clone, Copy, PartialEq, Eq, Structural)]
pub struct InvalidHandle;

impl InvalidHandle {
    /// The text shown to a user for this failure.
    pub fn message(&self) -> (text: String)
        ensures
            text@ == "invalid handle"@,
    {
        "invalid handle".to_owned()
    }
}

/// A failure that ends the render loop. None of them is retried: the owner
/// unwinds to a full teardown.
#[derive(Debug, Clone, Copy, PartialEq, Eq, Structural)]
pub enum FatalError {
    /// A buffer, a command buffer or a synchronisation object could not be
    /// created, or recorded work could not be submitted.
    ResourceCreationFailure,
    /// Acquiring or presenting an image found the display surface unusable.
    FrameAcquisitionFailure,
    /// Waiting for a fence failed, which means the device is lost.
    SynchronizationWaitFailure,
}

} // verus!
