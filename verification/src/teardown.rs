//! The order in which the renderer gives up what it holds.
//!
//! Nothing may be destroyed while the device still works with it, and nothing
//! before what depends on it. So the teardown first waits for the device to go
//! idle and then destroys in reverse order of dependency, each thing once.

use vstd::prelude::*;

verus! {

/// One step of the teardown.
#[derive(Debug, Clone, Copy, PartialEq, Eq, Structural)]
pub enum TeardownStep {
    /// Wait until the device has finished all submitted work.
    WaitDeviceIdle,
    /// Destroy what belongs to the ring slots and swap images: descriptor and
    /// command pools, fences, semaphores, framebuffers, image views and the
    /// swapchain.
    DestroyRingResources,
    /// Destroy the graphics pipeline and its layout.
    DestroyPipeline,
    DestroyRenderPass,
    /// Destroy the buffers that the registries and the camera gave up.
    DestroyBuffers,
    DestroyAllocator,
    DestroyDevice,
    /// Destroy the surface and the debug messenger.
    DestroyDebugContext,
    DestroyInstance,
}

/// All steps of a teardown, in the order in which they have to happen.
pub open spec fn teardown_order() -> Seq<TeardownStep> {
    seq![
        TeardownStep::WaitDeviceIdle,
        TeardownStep::DestroyRingResources,
        TeardownStep::DestroyPipeline,
        TeardownStep::DestroyRenderPass,
        TeardownStep::DestroyBuffers,
        TeardownStep::DestroyAllocator,
        TeardownStep::DestroyDevice,
        TeardownStep::DestroyDebugContext,
        TeardownStep::DestroyInstance,
    ]
}

/// The number of steps of a teardown.
pub const TEARDOWN_STEPS: usize = 9;

/// A teardown in progress. It hands out each step once, in order.
pub struct Teardown {
    taken: usize,
}

impl View for Teardown {
    type V = nat;

    /// The number of steps that were handed out.
    closed spec fn view(&self) -> nat {
        self.taken as nat
    }
}

impl Teardown {
    /// A teardown of which no step was taken yet.
    pub fn new() -> (teardown: Teardown)
        ensures
            teardown@ == 0,
    {
        Teardown { taken: 0 }
    }

    /// Whether every step was handed out.
    pub fn is_complete(&self) -> (complete: bool)
        ensures
            complete == (self@ >= teardown_order().len()),
    {
        self.taken >= TEARDOWN_STEPS
    }

    /// The next step to perform, or nothing once all steps were handed out.
    pub fn next_step(&mut self) -> (step: Option<TeardownStep>)
        ensures
            step == (if old(self)@ < teardown_order().len() {
                Some(teardown_order()[old(self)@ as int])
            } else {
                None
            }),
            final(self)@ == (if old(self)@ < teardown_order().len() {
                old(self)@ + 1
            } else {
                old(self)@
            }),
    {
        let step = if self.taken == 0 {
            TeardownStep::WaitDeviceIdle
        } else if self.taken == 1 {
            TeardownStep::DestroyRingResources
        } else if self.taken == 2 {
            TeardownStep::DestroyPipeline
        } else if self.taken == 3 {
            TeardownStep::DestroyRenderPass
        } else if self.taken == 4 {
            TeardownStep::DestroyBuffers
        } else if self.taken == 5 {
            TeardownStep::DestroyAllocator
        } else if self.taken == 6 {
            TeardownStep::DestroyDevice
        } else if self.taken == 7 {
            TeardownStep::DestroyDebugContext
        } else if self.taken == 8 {
            TeardownStep::DestroyInstance
        } else {
            return None;
        };
        self.taken += 1;
        Some(step)
    }
}

/// The teardown begins with the wait for the device, and names no step twice:
/// what is handed out in order is destroyed exactly once.
pub proof fn lemma_teardown_order()
    ensures
        teardown_order().len() == TEARDOWN_STEPS,
        teardown_order()[0] == TeardownStep::WaitDeviceIdle,
        teardown_order().no_duplicates(),
{
}

} // verus!
