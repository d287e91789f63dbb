//! The frame synchronization ring's per-slot primitives. The ring bounds how
//! many frames the CPU may have outstanding on the GPU; its size is fixed
//! for the life of the device context, independent of how many presentable
//! images exist.

use vstd::prelude::*;

use crate::bundle::DestroyStep;

verus! {

/// How many frames may be in flight at once: classic double buffering.
pub const MAX_FRAMES_IN_FLIGHT: usize = 2;

/// One slot's synchronization primitives: the image-available signal, the
/// render-finished signal, and the in-flight gate that throttles reuse of
/// the slot.
#[derive(Debug, Clone, Copy, PartialEq, Eq, Structural)]
pub struct InFlightFrame {
    pub available_semaphore: u64,
    pub rendered_semaphore: u64,
    pub in_flight_fence: u64,
}

/// One synchronization object to create for a slot. A fence carries whether
/// it starts out signaled.
#[derive(Debug, Clone, Copy, PartialEq, Eq, Structural)]
pub enum SyncCreateStep {
    CreateSemaphore,
    CreateFence { signaled: bool },
}

/// What one frame slot needs: two semaphores and its in-flight gate. The
/// gate is created in the already-signaled state, so the first wait on each
/// slot returns at once instead of deadlocking on the very first frames.
pub fn slot_sync_plan() -> (plan: Vec<SyncCreateStep>)
    ensures
        plan@ =~= seq![
            SyncCreateStep::CreateSemaphore,
            SyncCreateStep::CreateSemaphore,
            SyncCreateStep::CreateFence { signaled: true },
        ],
        forall|i: int|
            0 <= i < plan@.len() ==> (#[trigger] plan@[i] matches SyncCreateStep::CreateFence {
                signaled,
            } ==> signaled),
{
    let mut plan: Vec<SyncCreateStep> = Vec::new();
    plan.push(SyncCreateStep::CreateSemaphore);
    plan.push(SyncCreateStep::CreateSemaphore);
    plan.push(SyncCreateStep::CreateFence { signaled: true });
    plan
}

impl InFlightFrame {
    /// Gathers one slot's created primitives.
    pub fn new(available_semaphore: u64, rendered_semaphore: u64, in_flight_fence: u64) -> (r:
        Self)
        ensures
            r == (InFlightFrame { available_semaphore, rendered_semaphore, in_flight_fence }),
    {
        InFlightFrame { available_semaphore, rendered_semaphore, in_flight_fence }
    }

    /// The release steps for one slot's primitives, in creation order.
    pub fn destroy(self) -> (plan: Vec<DestroyStep>)
        ensures
            plan@ =~= spec_slot_teardown(self),
    {
        let mut plan: Vec<DestroyStep> = Vec::new();
        plan.push(DestroyStep::DestroySemaphore(self.available_semaphore));
        plan.push(DestroyStep::DestroySemaphore(self.rendered_semaphore));
        plan.push(DestroyStep::DestroyFence(self.in_flight_fence));
        plan
    }
}

/// The release steps for one slot's primitives.
pub open spec fn spec_slot_teardown(slot: InFlightFrame) -> Seq<DestroyStep> {
    seq![
        DestroyStep::DestroySemaphore(slot.available_semaphore),
        DestroyStep::DestroySemaphore(slot.rendered_semaphore),
        DestroyStep::DestroyFence(slot.in_flight_fence),
    ]
}

} // verus!
