//! The frame scheduler: one render-loop step as a state machine. The
//! scheduler decides which gate to wait on, which image to render to, what
//! to submit and present, and how to recover when the surface goes out of
//! date; the shell performs each request against the driver and hands the
//! outcome back. A full frame is: `prepare_frame`, then `complete_acquire`,
//! then `complete_submit`, then `complete_present`.

use vstd::prelude::*;

use crate::bundle::spec_teardown_plan;
use crate::bundle::DestroyStep;
use crate::bundle::Swapchain;
use crate::bundle::SwapchainImage;
use crate::context::Context;
use crate::error::Error;
use crate::error::ERROR_OUT_OF_DATE_KHR;
use crate::swapchain::PIPELINE_STAGE_COLOR_ATTACHMENT_OUTPUT_BIT;
use crate::sync::spec_slot_teardown;
use crate::sync::InFlightFrame;
use vstd::arithmetic::div_mod::lemma_fundamental_div_mod;
use vstd::arithmetic::div_mod::lemma_mod_multiples_vanish;
use vstd::arithmetic::div_mod::lemma_small_mod;
use vstd::string::StringExecFns;

verus! {

/// Where the scheduler stands within one frame.
#[derive(Debug, Clone, Copy, PartialEq, Eq, Structural)]
pub enum Phase {
    /// Between frames: ready to start the next one.
    Between,
    /// An acquire request is out with the shell.
    Acquiring,
    /// A submit plan is out with the shell.
    Submitting,
    /// A present request is out with the shell.
    Presenting,
}

/// What the scheduler knows of one slot's in-flight gate. On the render
/// path every gate stays `Signaled` or `InFlight` — that is the no-deadlock
/// invariant. `Disarmed` arises only when a submit fails after its gate was
/// reset: a fatal state, after which no further frame can be started.
pub enum GateState {
    /// Signaled now: created signaled, or its last wait has returned.
    Signaled,
    /// A submission is pending that will signal it.
    InFlight,
    /// Possibly reset with nothing pending: a wait might never return.
    Disarmed,
}

/// The work that starts a frame: wait on the named gate with an unbounded
/// timeout, then request the next image index, handing the driver the
/// semaphore to signal when the image becomes available.
#[derive(Debug, Clone, Copy, PartialEq, Eq, Structural)]
pub struct AcquireRequest {
    pub in_flight_gate: u64,
    pub image_available_semaphore: u64,
    pub swapchain: u64,
}

/// How the acquire went: the driver handed over an image index, or a result
/// code. An out-of-date code is recovered from; any other is fatal.
#[derive(Debug, Clone, Copy, PartialEq, Eq, Structural)]
pub enum AcquireOutcome {
    Acquired(u32),
    Failed(u32),
}

/// What the shell must do to render the frame, in order: wait on the prior
/// image gate if one is named, reset the in-flight gate, then submit the
/// image's pre-recorded command buffer — waiting on `wait_semaphore` at
/// `wait_stage`, signaling `signal_semaphore` and the in-flight gate.
#[derive(Debug, Clone, Copy)]
pub struct SubmitPlan {
    pub prior_image_gate: Option<u64>,
    pub wait_semaphore: u64,
    pub wait_stage: u32,
    pub command_buffer: u64,
    pub signal_semaphore: u64,
    pub in_flight_gate: u64,
    pub image_index: u32,
}

/// The scheduler's answer to an acquire outcome: render the frame, or tear
/// the bundle down (the surface was out of date; the next frame rebuilds).
pub enum FrameStep {
    Render(SubmitPlan),
    Rebuild(Vec<DestroyStep>),
}

#[derive(Debug, Clone, Copy, PartialEq, Eq, Structural)]
pub enum SubmitOutcome {
    Submitted,
    Failed(u32),
}

/// What the shell must do to present: queue the image for presentation,
/// waiting on the render-finished semaphore.
#[derive(Debug, Clone, Copy, PartialEq, Eq, Structural)]
pub struct PresentRequest {
    pub wait_semaphore: u64,
    pub swapchain: u64,
    pub image_index: u32,
}

#[derive(Debug, Clone, Copy, PartialEq, Eq, Structural)]
pub enum PresentOutcome {
    Presented,
    Failed(u32),
}

/// Every image's gate back-reference is either empty or one of the ring's
/// gates: an image never remembers a gate that does not exist.
pub open spec fn spec_images_guarded_by_ring(
    images: Seq<SwapchainImage>,
    slots: Seq<InFlightFrame>,
) -> bool {
    forall|i: int|
        0 <= i < images.len() ==> (#[trigger] images[i]).in_flight_fence == 0 || exists|j: int|
            0 <= j < slots.len() && slots[j].in_flight_fence == images[i].in_flight_fence
}

/// A bundle fresh from construction: no gate claims any of its images yet.
pub open spec fn spec_fresh_bundle(sc: Swapchain) -> bool {
    forall|i: int| 0 <= i < sc.images@.len() ==> (#[trigger] sc.images@[i]).in_flight_fence == 0
}

/// The scheduler's state. The ring of slots is fixed at construction; the
/// bundle comes and goes with the surface's validity. `gates`, `waited`
/// and `frames_completed` are the ghost protocol state: what each slot's
/// gate would do when waited on, which slots have been waited on at all,
/// and how many frames have been presented.
pub struct FrameScheduler {
    pub inflight_frames: Vec<InFlightFrame>,
    pub current_frame: usize,
    pub sc_ctx: Option<Swapchain>,
    pub phase: Phase,
    pub pending_image: usize,
    pub gates: Ghost<Seq<GateState>>,
    pub waited: Ghost<Seq<bool>>,
    pub frames_completed: Ghost<nat>,
}

impl FrameScheduler {
    /// The scheduler's invariant. Its heart is the no-deadlock clause: no
    /// gate is disarmed, so every wait the scheduler asks for returns; and
    /// the cursor equals the completed-frame count modulo the slot count,
    /// so the slots are used in strict rotation. Every step of the render
    /// path preserves it, except a fatal submit failure, which disarms a
    /// gate and with that ends the render path: each step requires `wf`.
    pub open spec fn wf(&self) -> bool {
        &&& 0 < self.inflight_frames@.len()
        &&& self.current_frame < self.inflight_frames@.len()
        &&& self.gates@.len() == self.inflight_frames@.len()
        &&& self.waited@.len() == self.inflight_frames@.len()
        &&& forall|i: int| 0 <= i < self.gates@.len() ==> self.gates@[i] != GateState::Disarmed
        &&& forall|i: int|
            0 <= i < self.waited@.len() && !self.waited@[i] ==> self.gates@[i]
                is Signaled
        &&& ((self.phase is Acquiring || self.phase is Submitting || self.phase is Presenting)
            ==> self.waited@[self.current_frame as int])
        &&& self.current_frame as int == self.frames_completed@ as int % (
        self.inflight_frames@.len() as int)
        &&& match self.sc_ctx {
            Some(sc) => spec_images_guarded_by_ring(sc.images@, self.inflight_frames@),
            None => true,
        }
        &&& (self.phase is Acquiring ==> self.sc_ctx is Some)
        &&& ((self.phase is Submitting || self.phase is Presenting) ==> (self.sc_ctx is Some
            && self.pending_image < self.sc_ctx->0.images@.len() && self.pending_image as int
            <= 0xffff_ffff))
    }

    /// A new scheduler over a freshly created ring: every in-flight gate
    /// was created in the signaled state, so the first wait on each slot
    /// returns at once.
    pub fn new(slots: Vec<InFlightFrame>) -> (s: Self)
        requires
            0 < slots@.len(),
        ensures
            s.wf(),
            s.inflight_frames == slots,
            s.current_frame == 0,
            s.frames_completed@ == 0,
            s.sc_ctx is None,
            s.phase == Phase::Between,
            s.gates@.len() == slots@.len(),
            forall|i: int| 0 <= i < s.gates@.len() ==> s.gates@[i] == GateState::Signaled,
            s.waited@.len() == slots@.len(),
            forall|i: int| 0 <= i < s.waited@.len() ==> !s.waited@[i],
    {
        let ghost n = slots@.len();
        let s = FrameScheduler {
            inflight_frames: slots,
            current_frame: 0,
            sc_ctx: None,
            phase: Phase::Between,
            pending_image: 0,
            gates: Ghost(Seq::new(n, |i: int| GateState::Signaled)),
            waited: Ghost(Seq::new(n, |i: int| false)),
            frames_completed: Ghost(0),
        };
        proof {
            lemma_small_mod(0, n);
        }
        s
    }

    /// Installs a freshly built bundle. The scheduler owns it from here on.
    pub fn install_swapchain(&mut self, sc: Swapchain)
        requires
            old(self).wf(),
            old(self).phase == Phase::Between,
            old(self).sc_ctx is None,
            spec_fresh_bundle(sc),
        ensures
            final(self).wf(),
            final(self).sc_ctx == Some(sc),
            final(self).inflight_frames == old(self).inflight_frames,
            final(self).current_frame == old(self).current_frame,
            final(self).frames_completed@ == old(self).frames_completed@,
            final(self).gates@ == old(self).gates@,
            final(self).waited@ == old(self).waited@,
            final(self).phase == Phase::Between,
    {
        self.sc_ctx = Some(sc);
    }

    /// Starts a frame: names the current slot's gate to wait on and the
    /// semaphore for the acquire to signal. A wait on that gate returns,
    /// since it is signaled already or has work pending that signals it;
    /// once the wait has returned, that slot's gate counts as signaled.
    pub fn prepare_frame(&mut self) -> (r: AcquireRequest)
        requires
            old(self).wf(),
            old(self).phase == Phase::Between,
            old(self).sc_ctx is Some,
        ensures
            final(self).wf(),
            final(self).phase == Phase::Acquiring,
            r.in_flight_gate == old(self).inflight_frames@[old(
                self,
            ).current_frame as int].in_flight_fence,
            r.image_available_semaphore == old(self).inflight_frames@[old(
                self,
            ).current_frame as int].available_semaphore,
            r.swapchain == old(self).sc_ctx->0.ctx.swapchain,
            old(self).gates@[old(self).current_frame as int] != GateState::Disarmed,
            !old(self).waited@[old(self).current_frame as int] ==> old(self).gates@[old(
                self,
            ).current_frame as int] is Signaled,
            final(self).gates@ == old(self).gates@.update(
                old(self).current_frame as int,
                GateState::Signaled,
            ),
            final(self).waited@ == old(self).waited@.update(
                old(self).current_frame as int,
                true,
            ),
            final(self).inflight_frames == old(self).inflight_frames,
            final(self).current_frame == old(self).current_frame,
            final(self).frames_completed@ == old(self).frames_completed@,
            final(self).sc_ctx == old(self).sc_ctx,
    {
        let cur = self.current_frame;
        let slot = self.inflight_frames[cur];
        let sc = self.sc_ctx.as_ref().unwrap();
        let r = AcquireRequest {
            in_flight_gate: slot.in_flight_fence,
            image_available_semaphore: slot.available_semaphore,
            swapchain: sc.ctx.swapchain,
        };
        self.phase = Phase::Acquiring;
        self.gates = Ghost(self.gates@.update(cur as int, GateState::Signaled));
        self.waited = Ghost(self.waited@.update(cur as int, true));
        r
    }

    /// Takes the acquire outcome. An out-of-date surface is absorbed: the
    /// bundle is handed back as a teardown plan, nothing is drawn, and the
    /// call counts as success. An image index in range yields the submit
    /// plan and moves the image's gate back-reference to the current slot.
    /// An index out of range is an internal error; any other driver code is
    /// fatal and propagated.
    pub fn complete_acquire(&mut self, outcome: AcquireOutcome) -> (r: Result<FrameStep, Error>)
        requires
            old(self).wf(),
            old(self).phase == Phase::Acquiring,
        ensures
            final(self).wf(),
            final(self).inflight_frames == old(self).inflight_frames,
            final(self).current_frame == old(self).current_frame,
            final(self).frames_completed@ == old(self).frames_completed@,
            final(self).waited@ == old(self).waited@,
            outcome == AcquireOutcome::Failed(ERROR_OUT_OF_DATE_KHR) ==> {
                &&& r matches Ok(FrameStep::Rebuild(plan)) && plan@ == spec_teardown_plan(
                    old(self).sc_ctx->0,
                )
                &&& final(self).sc_ctx is None
                &&& final(self).phase == Phase::Between
                &&& final(self).gates@ == old(self).gates@
            },
            outcome matches AcquireOutcome::Failed(code) ==> (code != ERROR_OUT_OF_DATE_KHR ==> {
                &&& r == Result::<FrameStep, Error>::Err(Error::VulkanError(code))
                &&& final(self).sc_ctx == old(self).sc_ctx
                &&& final(self).phase == Phase::Between
                &&& final(self).gates@ == old(self).gates@
            }),
            outcome matches AcquireOutcome::Acquired(idx) ==> {
                &&& (idx as int) < old(self).sc_ctx->0.images@.len() ==> {
                    let slot = old(self).inflight_frames@[old(self).current_frame as int];
                    let img = old(self).sc_ctx->0.images@[idx as int];
                    &&& r matches Ok(FrameStep::Render(plan)) && {
                        &&& plan.prior_image_gate == (if img.in_flight_fence != 0 {
                            Some(img.in_flight_fence)
                        } else {
                            None::<u64>
                        })
                        &&& plan.wait_semaphore == slot.available_semaphore
                        &&& plan.wait_stage == PIPELINE_STAGE_COLOR_ATTACHMENT_OUTPUT_BIT
                        &&& plan.command_buffer == img.command_buffer
                        &&& plan.signal_semaphore == slot.rendered_semaphore
                        &&& plan.in_flight_gate == slot.in_flight_fence
                        &&& plan.image_index == idx
                    }
                    &&& final(self).phase == Phase::Submitting
                    &&& final(self).pending_image == idx as int
                    &&& final(self).sc_ctx matches Some(sc) && sc.ctx == old(self).sc_ctx->0.ctx
                        && sc.images@ == old(self).sc_ctx->0.images@.update(
                        idx as int,
                        (SwapchainImage { in_flight_fence: slot.in_flight_fence, ..img }),
                    )
                    &&& final(self).gates@ == old(self).gates@.update(
                        old(self).current_frame as int,
                        GateState::InFlight,
                    )
                }
                &&& (idx as int) >= old(self).sc_ctx->0.images@.len() ==> {
                    &&& r matches Err(e) && e matches Error::Other(s) && s@
                        == "invalid current image index"@
                    &&& final(self).sc_ctx == old(self).sc_ctx
                    &&& final(self).phase == Phase::Between
                    &&& final(self).gates@ == old(self).gates@
                }
            },
    {
        match outcome {
            AcquireOutcome::Failed(code) => {
                if code == ERROR_OUT_OF_DATE_KHR {
                    let sc = self.sc_ctx.take().unwrap();
                    self.phase = Phase::Between;
                    let plan = sc.destroy();
                    Ok(FrameStep::Rebuild(plan))
                } else {
                    self.phase = Phase::Between;
                    Err(Error::VulkanError(code))
                }
            },
            AcquireOutcome::Acquired(idx) => {
                let cur = self.current_frame;
                let slot = self.inflight_frames[cur];
                let mut sc = self.sc_ctx.take().unwrap();
                if (idx as usize) >= sc.images.len() {
                    self.sc_ctx = Some(sc);
                    self.phase = Phase::Between;
                    return Err(
                        Error::Other(String::from_str("invalid current image index")),
                    );
                }
                let i = idx as usize;
                let prior = sc.images[i].in_flight_fence;
                let prior_image_gate = if prior != 0 {
                    Some(prior)
                } else {
                    None
                };
                let mut img = sc.images[i];
                img.in_flight_fence = slot.in_flight_fence;
                sc.images[i] = img;
                let plan = SubmitPlan {
                    prior_image_gate,
                    wait_semaphore: slot.available_semaphore,
                    wait_stage: PIPELINE_STAGE_COLOR_ATTACHMENT_OUTPUT_BIT,
                    command_buffer: img.command_buffer,
                    signal_semaphore: slot.rendered_semaphore,
                    in_flight_gate: slot.in_flight_fence,
                    image_index: idx,
                };
                self.sc_ctx = Some(sc);
                self.pending_image = i;
                self.phase = Phase::Submitting;
                self.gates = Ghost(self.gates@.update(cur as int, GateState::InFlight));
                Ok(FrameStep::Render(plan))
            },
        }
    }

    /// Takes the submit outcome: success yields the present request for the
    /// pending image; a failure is fatal and propagated. A failed submit
    /// leaves the current slot's gate disarmed — reset, with nothing
    /// pending to signal it — so the state no longer satisfies `wf` and no
    /// further frame can be started; only shutdown remains.
    pub fn complete_submit(&mut self, outcome: SubmitOutcome) -> (r: Result<PresentRequest, Error>)
        requires
            old(self).wf(),
            old(self).phase == Phase::Submitting,
        ensures
            final(self).inflight_frames == old(self).inflight_frames,
            final(self).current_frame == old(self).current_frame,
            final(self).frames_completed@ == old(self).frames_completed@,
            final(self).sc_ctx == old(self).sc_ctx,
            final(self).pending_image == old(self).pending_image,
            final(self).waited@ == old(self).waited@,
            outcome == SubmitOutcome::Submitted ==> {
                &&& final(self).wf()
                &&& final(self).gates@ == old(self).gates@
                &&& r matches Ok(p) && {
                    &&& p.wait_semaphore == old(self).inflight_frames@[old(
                        self,
                    ).current_frame as int].rendered_semaphore
                    &&& p.swapchain == old(self).sc_ctx->0.ctx.swapchain
                    &&& p.image_index == old(self).pending_image as int
                }
                &&& final(self).phase == Phase::Presenting
            },
            outcome matches SubmitOutcome::Failed(code) ==> {
                &&& r == Result::<PresentRequest, Error>::Err(Error::VulkanError(code))
                &&& final(self).phase == Phase::Between
                &&& final(self).gates@ == old(self).gates@.update(
                    old(self).current_frame as int,
                    GateState::Disarmed,
                )
            },
    {
        match outcome {
            SubmitOutcome::Submitted => {
                let cur = self.current_frame;
                let slot = self.inflight_frames[cur];
                let sc = self.sc_ctx.as_ref().unwrap();
                self.phase = Phase::Presenting;
                Ok(
                    PresentRequest {
                        wait_semaphore: slot.rendered_semaphore,
                        swapchain: sc.ctx.swapchain,
                        image_index: self.pending_image as u32,
                    },
                )
            },
            SubmitOutcome::Failed(code) => {
                self.phase = Phase::Between;
                self.gates = Ghost(
                    self.gates@.update(self.current_frame as int, GateState::Disarmed),
                );
                Err(Error::VulkanError(code))
            },
        }
    }

    /// Takes the present outcome and ends the frame. Success advances the
    /// cursor by one slot, cycling through the ring. An out-of-date surface
    /// is absorbed as at acquire — bundle handed back for teardown, cursor
    /// untouched, call counts as success. Any other code is fatal.
    pub fn complete_present(&mut self, outcome: PresentOutcome) -> (r: Result<
        Option<Vec<DestroyStep>>,
        Error,
    >)
        requires
            old(self).wf(),
            old(self).phase == Phase::Presenting,
        ensures
            final(self).wf(),
            final(self).inflight_frames == old(self).inflight_frames,
            final(self).gates@ == old(self).gates@,
            final(self).waited@ == old(self).waited@,
            final(self).phase == Phase::Between,
            outcome == PresentOutcome::Presented ==> {
                &&& r matches Ok(p) && p is None
                &&& final(self).frames_completed@ == old(self).frames_completed@ + 1
                &&& final(self).current_frame as int == (old(self).current_frame + 1) as int % (
                old(self).inflight_frames@.len() as int)
                &&& final(self).sc_ctx == old(self).sc_ctx
            },
            outcome == PresentOutcome::Failed(ERROR_OUT_OF_DATE_KHR) ==> {
                &&& r matches Ok(p) && p matches Some(plan) && plan@ == spec_teardown_plan(
                    old(self).sc_ctx->0,
                )
                &&& final(self).sc_ctx is None
                &&& final(self).frames_completed@ == old(self).frames_completed@
                &&& final(self).current_frame == old(self).current_frame
            },
            outcome matches PresentOutcome::Failed(code) ==> (code != ERROR_OUT_OF_DATE_KHR ==> {
                &&& r == Result::<Option<Vec<DestroyStep>>, Error>::Err(Error::VulkanError(code))
                &&& final(self).sc_ctx == old(self).sc_ctx
                &&& final(self).frames_completed@ == old(self).frames_completed@
                &&& final(self).current_frame == old(self).current_frame
            }),
    {
        match outcome {
            PresentOutcome::Presented => {
                let n = self.inflight_frames.len();
                proof {
                    lemma_cursor_advances(
                        self.frames_completed@ as int,
                        self.current_frame as int,
                        n as int,
                    );
                }
                self.current_frame = (self.current_frame + 1) % n;
                self.frames_completed = Ghost(self.frames_completed@ + 1);
                self.phase = Phase::Between;
                Ok(None)
            },
            PresentOutcome::Failed(code) => {
                if code == ERROR_OUT_OF_DATE_KHR {
                    let sc = self.sc_ctx.take().unwrap();
                    self.phase = Phase::Between;
                    let plan = sc.destroy();
                    Ok(Some(plan))
                } else {
                    self.phase = Phase::Between;
                    Err(Error::VulkanError(code))
                }
            },
        }
    }

    /// Reacts to a window resize notification: the bundle, if one exists,
    /// is invalidated and handed back for teardown, exactly as on an
    /// out-of-date surface.
    pub fn on_framebuffer_changed(&mut self) -> (r: Option<Vec<DestroyStep>>)
        requires
            old(self).wf(),
            old(self).phase == Phase::Between,
        ensures
            final(self).wf(),
            final(self).sc_ctx is None,
            final(self).phase == Phase::Between,
            final(self).inflight_frames == old(self).inflight_frames,
            final(self).current_frame == old(self).current_frame,
            final(self).frames_completed@ == old(self).frames_completed@,
            final(self).gates@ == old(self).gates@,
            final(self).waited@ == old(self).waited@,
            old(self).sc_ctx matches Some(sc) ==> (r matches Some(plan) && plan@
                == spec_teardown_plan(sc)),
            old(self).sc_ctx is None ==> r is None,
    {
        match self.sc_ctx.take() {
            Some(sc) => Some(sc.destroy()),
            None => None,
        }
    }

    /// Consumes the scheduler and plans the whole shutdown: wait for the
    /// device to go idle, release the ring's primitives, tear down the
    /// bundle if one is still installed, then release the device context in
    /// reverse-creation order.
    pub fn destroy(self, ctx: &Context) -> (plan: Vec<DestroyStep>)
        ensures
            plan@ == spec_shutdown_plan(self, *ctx),
            plan@.len() > 0 && plan@[0] == DestroyStep::WaitDeviceIdle,
    {
        let mut plan: Vec<DestroyStep> = Vec::new();
        plan.push(DestroyStep::WaitDeviceIdle);

        let mut slots = self.inflight_frames;
        let ghost all_slots = slots@;
        let n = slots.len();
        let mut i: usize = 0;
        proof {
            assert(all_slots.take(0) =~= Seq::<InFlightFrame>::empty());
            assert(plan@ =~= seq![DestroyStep::WaitDeviceIdle] + spec_ring_teardown(
                all_slots.take(0),
            ));
        }
        while i < n
            invariant
                n == all_slots.len(),
                slots@ == all_slots,
                i <= n,
                plan@ =~= seq![DestroyStep::WaitDeviceIdle] + spec_ring_teardown(
                    all_slots.take(i as int),
                ),
            decreases n - i,
        {
            let slot = slots[i];
            let mut slot_plan = slot.destroy();
            plan.append(&mut slot_plan);
            proof {
                let taken = all_slots.take(i + 1);
                assert(taken.drop_last() =~= all_slots.take(i as int));
                assert(taken.last() == all_slots[i as int]);
            }
            i = i + 1;
        }
        proof {
            assert(all_slots.take(n as int) =~= all_slots);
        }

        match self.sc_ctx {
            Some(sc) => {
                let mut sc_plan = sc.destroy();
                plan.append(&mut sc_plan);
            },
            None => {},
        }

        plan.push(DestroyStep::DestroyCommandPool(ctx.command_pool));
        plan.push(DestroyStep::DestroyDevice);
        plan.push(DestroyStep::DestroySurface(ctx.surface));
        if ctx.debugger != 0 {
            plan.push(DestroyStep::DestroyDebugger(ctx.debugger));
        }
        plan.push(DestroyStep::DestroyInstance);
        proof {
            assert(plan@ =~= spec_shutdown_plan(self, *ctx));
        }
        plan
    }
}

/// The ring's release steps, slot by slot.
pub open spec fn spec_ring_teardown(slots: Seq<InFlightFrame>) -> Seq<DestroyStep>
    decreases slots.len(),
{
    if slots.len() == 0 {
        Seq::empty()
    } else {
        spec_ring_teardown(slots.drop_last()) + spec_slot_teardown(slots.last())
    }
}

/// The whole shutdown: idle wait first, then the ring, then the bundle if
/// present, then command pool, device, surface, debugger (when one was
/// created) and instance, in that order.
pub open spec fn spec_shutdown_plan(s: FrameScheduler, ctx: Context) -> Seq<DestroyStep> {
    seq![DestroyStep::WaitDeviceIdle] + spec_ring_teardown(s.inflight_frames@) + (
    match s.sc_ctx {
        Some(sc) => spec_teardown_plan(sc),
        None => Seq::empty(),
    }) + seq![
        DestroyStep::DestroyCommandPool(ctx.command_pool),
        DestroyStep::DestroyDevice,
        DestroyStep::DestroySurface(ctx.surface),
    ] + (if ctx.debugger != 0 {
        seq![DestroyStep::DestroyDebugger(ctx.debugger)]
    } else {
        Seq::empty()
    }) + seq![DestroyStep::DestroyInstance]
}

/// Law: shutdown releases nothing before the device has gone idle — the
/// idle wait is the plan's first step.
pub proof fn lemma_shutdown_waits_idle_first(s: FrameScheduler, ctx: Context)
    ensures
        spec_shutdown_plan(s, ctx).len() > 0,
        spec_shutdown_plan(s, ctx)[0] == DestroyStep::WaitDeviceIdle,
        forall|i: int|
            0 <= i < spec_shutdown_plan(s, ctx).len() && #[trigger] spec_shutdown_plan(s, ctx)[i]
                != DestroyStep::WaitDeviceIdle ==> exists|j: int|
                0 <= j < i && spec_shutdown_plan(s, ctx)[j] == DestroyStep::WaitDeviceIdle,
{
    assert forall|i: int|
        0 <= i < spec_shutdown_plan(s, ctx).len() && #[trigger] spec_shutdown_plan(s, ctx)[i]
            != DestroyStep::WaitDeviceIdle implies exists|j: int|
        0 <= j < i && spec_shutdown_plan(s, ctx)[j] == DestroyStep::WaitDeviceIdle by {
        assert(spec_shutdown_plan(s, ctx)[0] == DestroyStep::WaitDeviceIdle);
    }
}

/// Law: a completed frame moves the cursor to the next slot of the
/// rotation. From `cursor == frames % slot_count`, one more completed frame
/// gives `(cursor + 1) % slot_count == (frames + 1) % slot_count`: after
/// `k` completed frames the cursor stands at `k % slot_count`, cycling
/// through every slot.
pub proof fn lemma_cursor_advances(frames: int, cursor: int, n: int)
    requires
        0 < n,
        0 <= frames,
        cursor == frames % n,
    ensures
        (cursor + 1) % n == (frames + 1) % n,
{
    lemma_fundamental_div_mod(frames, n);
    lemma_mod_multiples_vanish(frames / n, cursor + 1, n);
}

/// Law: the in-flight gate of a slot that has never been waited on is still
/// in its created state — signaled. In particular each slot's first wait,
/// in whichever frame it happens, finds a signaled gate and returns at
/// once: no deadlock on the first `slot_count` frames.
pub proof fn lemma_gate_signaled_before_first_wait(s: FrameScheduler, i: int)
    requires
        s.wf(),
        0 <= i < s.inflight_frames@.len(),
        !s.waited@[i],
    ensures
        s.gates@[i] is Signaled,
{
}

/// Law: in every reachable scheduler state the cursor equals the number of
/// completed frames modulo the slot count — after `k` successful frames the
/// current slot is `k % slot_count`.
pub proof fn lemma_cursor_is_completed_mod_slots(s: FrameScheduler)
    requires
        s.wf(),
    ensures
        s.current_frame as int == s.frames_completed@ as int % (s.inflight_frames@.len() as int),
{
}

/// Law: the first pass of the ring visits each slot exactly once: among the
/// first `slot_count` frames no slot repeats, so each of those frames waits
/// on a gate still in its created — signaled — state.
pub proof fn lemma_first_pass_distinct_slots(j: nat, k: nat, n: nat)
    requires
        j < k < n,
    ensures
        j % n != k % n,
{
    lemma_small_mod(j, n);
    lemma_small_mod(k, n);
}

} // verus!
