use frameloop::bundle::{DestroyStep, Swapchain, SwapchainContext, SwapchainImage};
use frameloop::context::{Context, QueueFamilies, QueueFamilyIndices};
use frameloop::scheduler::FrameScheduler;
use frameloop::swapchain::{Extent2d, SurfaceFormat};
use frameloop::sync::InFlightFrame;

fn bundle() -> Swapchain {
    let ctx = SwapchainContext {
        swapchain: 100,
        pipeline: 101,
        pipeline_layout: 102,
        render_pass: 103,
        vertex_shader_module: 104,
        fragment_shader_module: 105,
        vertex_buffer: 106,
        vertex_buffer_memory: 107,
        extent: Extent2d { width: 640, height: 480 },
        surface_format: SurfaceFormat { format: 50, color_space: 0 },
    };
    let images = vec![SwapchainImage::new(1, 2, 3), SwapchainImage::new(4, 5, 6)];
    Swapchain { images, ctx }
}

fn device_context(debugger: u64) -> Context {
    Context {
        instance: 500,
        debugger,
        physical_device: 501,
        device: 502,
        queue_family_indices: QueueFamilyIndices { graphics: 0, present: 0 },
        queue_families: QueueFamilies { graphics_queue: 503, present_queue: 503 },
        surface: 504,
        command_pool: 505,
        memory_type_flags: vec![0x6],
    }
}

#[test]
fn bundle_teardown_waits_idle_then_releases_in_order() {
    let plan = bundle().destroy();
    let expected = vec![
        DestroyStep::WaitDeviceIdle,
        DestroyStep::FreeMemory(107),
        DestroyStep::DestroyBuffer(106),
        DestroyStep::DestroyFramebuffer(2),
        DestroyStep::DestroyImageView(1),
        DestroyStep::FreeCommandBuffer(3),
        DestroyStep::DestroyFramebuffer(5),
        DestroyStep::DestroyImageView(4),
        DestroyStep::FreeCommandBuffer(6),
        DestroyStep::DestroyPipeline(101),
        DestroyStep::DestroyPipelineLayout(102),
        DestroyStep::DestroyShaderModule(104),
        DestroyStep::DestroyShaderModule(105),
        DestroyStep::DestroyRenderPass(103),
        DestroyStep::DestroySwapchain(100),
    ];
    assert_eq!(plan, expected);
}

#[test]
fn no_release_precedes_the_idle_wait() {
    let plan = bundle().destroy();
    let idle_at = plan.iter().position(|s| *s == DestroyStep::WaitDeviceIdle).unwrap();
    assert_eq!(idle_at, 0);
    for (i, step) in plan.iter().enumerate() {
        if *step != DestroyStep::WaitDeviceIdle {
            assert!(i > idle_at, "release step {:?} must follow the idle wait", step);
        }
    }
}

#[test]
fn slot_teardown_releases_all_three_primitives() {
    let plan = InFlightFrame::new(11, 12, 13).destroy();
    assert_eq!(
        plan,
        vec![
            DestroyStep::DestroySemaphore(11),
            DestroyStep::DestroySemaphore(12),
            DestroyStep::DestroyFence(13),
        ]
    );
}

#[test]
fn shutdown_releases_ring_bundle_then_device_context() {
    let slots = vec![InFlightFrame::new(11, 12, 13), InFlightFrame::new(21, 22, 23)];
    let mut s = FrameScheduler::new(slots);
    s.install_swapchain(bundle());
    let ctx = device_context(600);
    let plan = s.destroy(&ctx);
    assert_eq!(plan[0], DestroyStep::WaitDeviceIdle);
    // the ring's primitives go first
    assert_eq!(plan[1], DestroyStep::DestroySemaphore(11));
    assert_eq!(plan[6], DestroyStep::DestroyFence(23));
    // the bundle follows, then the device context in reverse-creation order
    let tail = &plan[plan.len() - 5..];
    assert_eq!(
        tail,
        &[
            DestroyStep::DestroyCommandPool(505),
            DestroyStep::DestroyDevice,
            DestroyStep::DestroySurface(504),
            DestroyStep::DestroyDebugger(600),
            DestroyStep::DestroyInstance,
        ]
    );
    // the bundle's own steps sit in between
    assert!(plan.contains(&DestroyStep::DestroySwapchain(100)));
}

#[test]
fn shutdown_without_debugger_skips_that_step() {
    let slots = vec![InFlightFrame::new(11, 12, 13)];
    let s = FrameScheduler::new(slots);
    let ctx = device_context(0);
    let plan = s.destroy(&ctx);
    assert!(!plan.iter().any(|s| matches!(s, DestroyStep::DestroyDebugger(_))));
    assert_eq!(plan[plan.len() - 1], DestroyStep::DestroyInstance);
    // no bundle was installed: no swapchain step either
    assert!(!plan.iter().any(|s| matches!(s, DestroyStep::DestroySwapchain(_))));
}
