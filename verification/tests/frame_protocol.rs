use frameloop::bundle::{DestroyStep, Swapchain, SwapchainContext, SwapchainImage};
use frameloop::error::{Error, ERROR_DEVICE_LOST, ERROR_OUT_OF_DATE_KHR};
use frameloop::scheduler::{
    AcquireOutcome, FrameScheduler, FrameStep, Phase, PresentOutcome, SubmitOutcome,
};
use frameloop::swapchain::{Extent2d, SurfaceFormat, PIPELINE_STAGE_COLOR_ATTACHMENT_OUTPUT_BIT};
use frameloop::sync::{slot_sync_plan, InFlightFrame, SyncCreateStep, MAX_FRAMES_IN_FLIGHT};

fn ring() -> Vec<InFlightFrame> {
    // slot 0: semaphores 11/12, gate 13; slot 1: semaphores 21/22, gate 23
    vec![InFlightFrame::new(11, 12, 13), InFlightFrame::new(21, 22, 23)]
}

fn bundle() -> Swapchain {
    let ctx = SwapchainContext {
        swapchain: 100,
        pipeline: 101,
        pipeline_layout: 102,
        render_pass: 103,
        vertex_shader_module: 104,
        fragment_shader_module: 105,
        vertex_buffer: 106,
        vertex_buffer_memory: 107,
        extent: Extent2d { width: 640, height: 480 },
        surface_format: SurfaceFormat { format: 50, color_space: 0 },
    };
    // three presentable images: more images than frame slots, on purpose
    let images = vec![
        SwapchainImage::new(1, 2, 3),
        SwapchainImage::new(4, 5, 6),
        SwapchainImage::new(7, 8, 9),
    ];
    Swapchain { images, ctx }
}

/// Drives one whole successful frame and returns the image index rendered.
fn one_frame(s: &mut FrameScheduler, image: u32) {
    let _req = s.prepare_frame();
    let step = s.complete_acquire(AcquireOutcome::Acquired(image)).unwrap();
    assert!(matches!(step, FrameStep::Render(_)));
    let _present = s.complete_submit(SubmitOutcome::Submitted).unwrap();
    let after = s.complete_present(PresentOutcome::Presented).unwrap();
    assert!(after.is_none());
}

#[test]
fn ring_plan_creates_every_gate_signaled() {
    // the in-flight gate of each slot starts out signaled: the plan for a
    // slot names exactly one fence and asks for it signaled
    let plan = slot_sync_plan();
    assert_eq!(plan.len(), 3);
    assert!(matches!(plan[0], SyncCreateStep::CreateSemaphore));
    assert!(matches!(plan[1], SyncCreateStep::CreateSemaphore));
    assert!(matches!(plan[2], SyncCreateStep::CreateFence { signaled: true }));
    for step in &plan {
        if let SyncCreateStep::CreateFence { signaled } = step {
            assert!(*signaled);
        }
    }
    assert_eq!(MAX_FRAMES_IN_FLIGHT, 2);
}

#[test]
fn first_pass_visits_each_slot_once() {
    // with freshly created (signaled) gates, the first waits hit slots
    // 0, 1, ... in order, each exactly once
    let mut s = FrameScheduler::new(ring());
    s.install_swapchain(bundle());
    let req0 = s.prepare_frame();
    assert_eq!(req0.in_flight_gate, 13);
    let step = s.complete_acquire(AcquireOutcome::Acquired(0)).unwrap();
    assert!(matches!(step, FrameStep::Render(_)));
    s.complete_submit(SubmitOutcome::Submitted).unwrap();
    s.complete_present(PresentOutcome::Presented).unwrap();
    let req1 = s.prepare_frame();
    assert_eq!(req1.in_flight_gate, 23);
}

#[test]
fn frame_counter_cycles_through_slots() {
    // after k successful frames, the cursor stands at k mod slot_count
    let mut s = FrameScheduler::new(ring());
    s.install_swapchain(bundle());
    assert_eq!(s.current_frame, 0);
    for k in 0u32..6 {
        one_frame(&mut s, k % 3);
        assert_eq!(s.current_frame, ((k + 1) as usize) % 2);
    }
}

#[test]
fn acquire_request_names_the_current_slot() {
    let mut s = FrameScheduler::new(ring());
    s.install_swapchain(bundle());
    let req = s.prepare_frame();
    assert_eq!(req.in_flight_gate, 13);
    assert_eq!(req.image_available_semaphore, 11);
    assert_eq!(req.swapchain, 100);
}

#[test]
fn submit_plan_wires_the_slot_and_image() {
    let mut s = FrameScheduler::new(ring());
    s.install_swapchain(bundle());
    let _req = s.prepare_frame();
    let step = s.complete_acquire(AcquireOutcome::Acquired(1)).unwrap();
    let plan = match step {
        FrameStep::Render(p) => p,
        FrameStep::Rebuild(_) => panic!("no rebuild expected"),
    };
    // a fresh image is guarded by no gate yet
    assert_eq!(plan.prior_image_gate, None);
    assert_eq!(plan.wait_semaphore, 11);
    assert_eq!(plan.wait_stage, PIPELINE_STAGE_COLOR_ATTACHMENT_OUTPUT_BIT);
    assert_eq!(plan.command_buffer, 6);
    assert_eq!(plan.signal_semaphore, 12);
    assert_eq!(plan.in_flight_gate, 13);
    assert_eq!(plan.image_index, 1);
    // the image now remembers the claiming slot's gate
    let sc = s.sc_ctx.as_ref().unwrap();
    assert_eq!(sc.images[1].in_flight_fence, 13);
}

#[test]
fn reused_image_names_its_prior_gate() {
    // image count (3) and slot count (2) differ: when an image comes up
    // again it may still be guarded by another slot's gate, which must be
    // waited on before reuse
    let mut s = FrameScheduler::new(ring());
    s.install_swapchain(bundle());
    one_frame(&mut s, 0);  // slot 0 claims image 0
    let _req = s.prepare_frame();  // slot 1
    let step = s.complete_acquire(AcquireOutcome::Acquired(0)).unwrap();
    let plan = match step {
        FrameStep::Render(p) => p,
        FrameStep::Rebuild(_) => panic!("no rebuild expected"),
    };
    assert_eq!(plan.prior_image_gate, Some(13));
    assert_eq!(plan.in_flight_gate, 23);
    let sc = s.sc_ctx.as_ref().unwrap();
    assert_eq!(sc.images[0].in_flight_fence, 23);
}

#[test]
fn outdated_on_acquire_recovers_and_rebuilds() {
    // call 1: the surface reports outdated on acquire; the call succeeds,
    // no bundle is left; call 2 installs a fresh one
    let mut s = FrameScheduler::new(ring());
    s.install_swapchain(bundle());
    let _req = s.prepare_frame();
    let step = s.complete_acquire(AcquireOutcome::Failed(ERROR_OUT_OF_DATE_KHR)).unwrap();
    match step {
        FrameStep::Rebuild(plan) => {
            assert_eq!(plan[0], DestroyStep::WaitDeviceIdle);
        }
        FrameStep::Render(_) => panic!("an outdated surface draws nothing"),
    }
    assert!(s.sc_ctx.is_none());
    assert_eq!(s.current_frame, 0);
    // the next call rebuilds
    s.install_swapchain(bundle());
    assert!(s.sc_ctx.is_some());
    one_frame(&mut s, 0);
    assert_eq!(s.current_frame, 1);
}

#[test]
fn outdated_on_present_skips_the_frame() {
    // after a successful acquire and submit, present reports outdated: the
    // bundle is torn down, the call succeeds, the frame counter holds still
    let mut s = FrameScheduler::new(ring());
    s.install_swapchain(bundle());
    one_frame(&mut s, 0);
    assert_eq!(s.current_frame, 1);
    let _req = s.prepare_frame();
    s.complete_acquire(AcquireOutcome::Acquired(1)).unwrap();
    s.complete_submit(SubmitOutcome::Submitted).unwrap();
    let r = s.complete_present(PresentOutcome::Failed(ERROR_OUT_OF_DATE_KHR)).unwrap();
    let plan = r.expect("the bundle must be handed back for teardown");
    assert_eq!(plan[0], DestroyStep::WaitDeviceIdle);
    assert!(s.sc_ctx.is_none());
    assert_eq!(s.current_frame, 1);
    // the next call rebuilds and the rotation goes on where it stood
    s.install_swapchain(bundle());
    one_frame(&mut s, 0);
    assert_eq!(s.current_frame, 0);
}

#[test]
fn other_acquire_failure_is_fatal() {
    let mut s = FrameScheduler::new(ring());
    s.install_swapchain(bundle());
    let _req = s.prepare_frame();
    let r = s.complete_acquire(AcquireOutcome::Failed(ERROR_DEVICE_LOST));
    match r {
        Err(Error::VulkanError(code)) => assert_eq!(code, ERROR_DEVICE_LOST),
        _ => panic!("a lost device must propagate"),
    }
    // the bundle stays: the caller is expected to shut down, not rebuild
    assert!(s.sc_ctx.is_some());
}

#[test]
fn other_present_failure_is_fatal_and_holds_the_counter() {
    let mut s = FrameScheduler::new(ring());
    s.install_swapchain(bundle());
    let _req = s.prepare_frame();
    s.complete_acquire(AcquireOutcome::Acquired(0)).unwrap();
    s.complete_submit(SubmitOutcome::Submitted).unwrap();
    let r = s.complete_present(PresentOutcome::Failed(ERROR_DEVICE_LOST));
    match r {
        Err(Error::VulkanError(code)) => assert_eq!(code, ERROR_DEVICE_LOST),
        _ => panic!("a lost device must propagate"),
    }
    assert_eq!(s.current_frame, 0);
}

#[test]
fn submit_failure_is_fatal() {
    let mut s = FrameScheduler::new(ring());
    s.install_swapchain(bundle());
    let _req = s.prepare_frame();
    s.complete_acquire(AcquireOutcome::Acquired(0)).unwrap();
    let r = s.complete_submit(SubmitOutcome::Failed(ERROR_DEVICE_LOST));
    match r {
        Err(Error::VulkanError(code)) => assert_eq!(code, ERROR_DEVICE_LOST),
        _ => panic!("a failed submit must propagate"),
    }
}

#[test]
fn image_index_out_of_range_is_an_internal_error() {
    let mut s = FrameScheduler::new(ring());
    s.install_swapchain(bundle());
    let _req = s.prepare_frame();
    let r = s.complete_acquire(AcquireOutcome::Acquired(3));
    match r {
        Err(Error::Other(msg)) => assert_eq!(msg, "invalid current image index"),
        _ => panic!("an index beyond the image count must be rejected"),
    }
    assert!(s.sc_ctx.is_some());
}

#[test]
fn framebuffer_change_invalidates_the_bundle() {
    let mut s = FrameScheduler::new(ring());
    // without a bundle there is nothing to do
    assert!(s.on_framebuffer_changed().is_none());
    s.install_swapchain(bundle());
    let plan = s.on_framebuffer_changed().expect("the bundle must be handed back");
    assert_eq!(plan[0], DestroyStep::WaitDeviceIdle);
    assert!(s.sc_ctx.is_none());
}
