//! The swapchain bundle: everything whose validity is tied to the current
//! window size, the plan that records its one command buffer, and the plans
//! that tear it down. A plan is an ordered list of driver operations for the
//! shell to perform; the order is semantically load-bearing, so it is
//! stated and proved here rather than left to the shell.

use vstd::prelude::*;

use crate::swapchain::Extent2d;
use crate::swapchain::SurfaceFormat;

verus! {

/// One presentable image's resources, plus a back-reference (not ownership)
/// to whichever in-flight gate last claimed the image; zero means none yet.
#[derive(Debug, Clone, Copy, PartialEq, Eq, Structural)]
pub struct SwapchainImage {
    pub image_view: u64,
    pub framebuffer: u64,
    pub command_buffer: u64,
    pub in_flight_fence: u64,
}

/// The bundle's own handles and chosen parameters.
#[derive(Debug, Clone, Copy, PartialEq, Eq, Structural)]
pub struct SwapchainContext {
    pub swapchain: u64,
    pub pipeline: u64,
    pub pipeline_layout: u64,
    pub render_pass: u64,
    pub vertex_shader_module: u64,
    pub fragment_shader_module: u64,
    pub vertex_buffer: u64,
    pub vertex_buffer_memory: u64,
    pub extent: Extent2d,
    pub surface_format: SurfaceFormat,
}

/// The whole bundle: torn down and rebuilt wholesale, never patched.
pub struct Swapchain {
    pub images: Vec<SwapchainImage>,
    pub ctx: SwapchainContext,
}

impl SwapchainImage {
    /// A freshly built image entry: no in-flight gate claims it yet.
    pub fn new(image_view: u64, framebuffer: u64, command_buffer: u64) -> (r: Self)
        ensures
            r == (SwapchainImage { image_view, framebuffer, command_buffer, in_flight_fence: 0 }),
    {
        SwapchainImage { image_view, framebuffer, command_buffer, in_flight_fence: 0 }
    }
}

/// One operation of the command buffer recorded for a presentable image.
#[derive(Debug, Clone, Copy, PartialEq, Eq, Structural)]
pub enum RecordStep {
    Begin,
    BeginRenderPass { render_pass: u64, framebuffer: u64, extent: Extent2d },
    BindPipeline(u64),
    BindVertexBuffer(u64),
    Draw { vertex_count: u32, instance_count: u32, first_vertex: u32, first_instance: u32 },
    EndRenderPass,
    End,
}

/// The recording every image's command buffer carries: begin the pass over
/// the image's framebuffer, bind the fixed pipeline and the vertex buffer,
/// draw the three vertices once, end the pass.
pub open spec fn spec_record_plan(ctx: SwapchainContext, framebuffer: u64) -> Seq<RecordStep> {
    seq![
        RecordStep::Begin,
        RecordStep::BeginRenderPass {
            render_pass: ctx.render_pass,
            framebuffer,
            extent: ctx.extent,
        },
        RecordStep::BindPipeline(ctx.pipeline),
        RecordStep::BindVertexBuffer(ctx.vertex_buffer),
        RecordStep::Draw { vertex_count: 3, instance_count: 1, first_vertex: 0, first_instance: 0 },
        RecordStep::EndRenderPass,
        RecordStep::End,
    ]
}

/// Plans the recording of one image's command buffer.
pub fn record_plan(ctx: &SwapchainContext, framebuffer: u64) -> (plan: Vec<RecordStep>)
    ensures
        plan@ == spec_record_plan(*ctx, framebuffer),
{
    let mut plan: Vec<RecordStep> = Vec::new();
    plan.push(RecordStep::Begin);
    plan.push(
        RecordStep::BeginRenderPass {
            render_pass: ctx.render_pass,
            framebuffer,
            extent: ctx.extent,
        },
    );
    plan.push(RecordStep::BindPipeline(ctx.pipeline));
    plan.push(RecordStep::BindVertexBuffer(ctx.vertex_buffer));
    plan.push(
        RecordStep::Draw { vertex_count: 3, instance_count: 1, first_vertex: 0, first_instance: 0 },
    );
    plan.push(RecordStep::EndRenderPass);
    plan.push(RecordStep::End);
    proof {
        assert(plan@ =~= spec_record_plan(*ctx, framebuffer));
    }
    plan
}

/// One resource-release operation, or the wait that must come before any of
/// them.
#[derive(Debug, Clone, Copy, PartialEq, Eq, Structural)]
pub enum DestroyStep {
    WaitDeviceIdle,
    FreeMemory(u64),
    DestroyBuffer(u64),
    DestroyFramebuffer(u64),
    DestroyImageView(u64),
    FreeCommandBuffer(u64),
    DestroyPipeline(u64),
    DestroyPipelineLayout(u64),
    DestroyRenderPass(u64),
    DestroyShaderModule(u64),
    DestroySwapchain(u64),
    DestroySemaphore(u64),
    DestroyFence(u64),
    DestroyCommandPool(u64),
    DestroyDevice,
    DestroySurface(u64),
    DestroyDebugger(u64),
    DestroyInstance,
}

/// The per-image release steps, in image order.
pub open spec fn spec_image_teardown(images: Seq<SwapchainImage>) -> Seq<DestroyStep>
    decreases images.len(),
{
    if images.len() == 0 {
        Seq::empty()
    } else {
        spec_image_teardown(images.drop_last()) + seq![
            DestroyStep::DestroyFramebuffer(images.last().framebuffer),
            DestroyStep::DestroyImageView(images.last().image_view),
            DestroyStep::FreeCommandBuffer(images.last().command_buffer),
        ]
    }
}

/// The bundle's teardown: wait for the device to go idle, then release the
/// vertex buffer, the per-image resources, the pipeline, the shader
/// modules, the render pass and the swapchain handle, in that order.
pub open spec fn spec_teardown_plan(sc: Swapchain) -> Seq<DestroyStep> {
    seq![
        DestroyStep::WaitDeviceIdle,
        DestroyStep::FreeMemory(sc.ctx.vertex_buffer_memory),
        DestroyStep::DestroyBuffer(sc.ctx.vertex_buffer),
    ] + spec_image_teardown(sc.images@) + seq![
        DestroyStep::DestroyPipeline(sc.ctx.pipeline),
        DestroyStep::DestroyPipelineLayout(sc.ctx.pipeline_layout),
        DestroyStep::DestroyShaderModule(sc.ctx.vertex_shader_module),
        DestroyStep::DestroyShaderModule(sc.ctx.fragment_shader_module),
        DestroyStep::DestroyRenderPass(sc.ctx.render_pass),
        DestroyStep::DestroySwapchain(sc.ctx.swapchain),
    ]
}

impl Swapchain {
    /// Consumes the bundle and plans its teardown.
    pub fn destroy(self) -> (plan: Vec<DestroyStep>)
        ensures
            plan@ == spec_teardown_plan(self),
            plan@.len() > 0 && plan@[0] == DestroyStep::WaitDeviceIdle,
    {
        let mut plan: Vec<DestroyStep> = Vec::new();
        plan.push(DestroyStep::WaitDeviceIdle);
        plan.push(DestroyStep::FreeMemory(self.ctx.vertex_buffer_memory));
        plan.push(DestroyStep::DestroyBuffer(self.ctx.vertex_buffer));

        let n = self.images.len();
        let mut i: usize = 0;
        proof {
            assert(self.images@.take(0) =~= Seq::<SwapchainImage>::empty());
            assert(plan@ =~= seq![
                DestroyStep::WaitDeviceIdle,
                DestroyStep::FreeMemory(self.ctx.vertex_buffer_memory),
                DestroyStep::DestroyBuffer(self.ctx.vertex_buffer),
            ] + spec_image_teardown(self.images@.take(0)));
        }
        while i < n
            invariant
                n == self.images@.len(),
                i <= n,
                plan@ =~= seq![
                    DestroyStep::WaitDeviceIdle,
                    DestroyStep::FreeMemory(self.ctx.vertex_buffer_memory),
                    DestroyStep::DestroyBuffer(self.ctx.vertex_buffer),
                ] + spec_image_teardown(self.images@.take(i as int)),
            decreases n - i,
        {
            let img = self.images[i];
            plan.push(DestroyStep::DestroyFramebuffer(img.framebuffer));
            plan.push(DestroyStep::DestroyImageView(img.image_view));
            plan.push(DestroyStep::FreeCommandBuffer(img.command_buffer));
            proof {
                let taken = self.images@.take(i + 1);
                assert(taken.drop_last() =~= self.images@.take(i as int));
                assert(taken.last() == self.images@[i as int]);
            }
            i = i + 1;
        }
        proof {
            assert(self.images@.take(n as int) =~= self.images@);
        }

        plan.push(DestroyStep::DestroyPipeline(self.ctx.pipeline));
        plan.push(DestroyStep::DestroyPipelineLayout(self.ctx.pipeline_layout));
        plan.push(DestroyStep::DestroyShaderModule(self.ctx.vertex_shader_module));
        plan.push(DestroyStep::DestroyShaderModule(self.ctx.fragment_shader_module));
        plan.push(DestroyStep::DestroyRenderPass(self.ctx.render_pass));
        plan.push(DestroyStep::DestroySwapchain(self.ctx.swapchain));
        proof {
            assert(plan@ =~= spec_teardown_plan(self));
        }
        plan
    }
}

/// Law: bundle teardown releases no resource before the device has gone
/// idle. The idle wait is the plan's first step, so it precedes every
/// release step.
pub proof fn lemma_teardown_waits_idle_first(sc: Swapchain)
    ensures
        spec_teardown_plan(sc).len() > 0,
        spec_teardown_plan(sc)[0] == DestroyStep::WaitDeviceIdle,
        forall|i: int|
            0 <= i < spec_teardown_plan(sc).len() && #[trigger] spec_teardown_plan(sc)[i]
                != DestroyStep::WaitDeviceIdle ==> exists|j: int|
                0 <= j < i && spec_teardown_plan(sc)[j] == DestroyStep::WaitDeviceIdle,
{
    assert forall|i: int|
        0 <= i < spec_teardown_plan(sc).len() && #[trigger] spec_teardown_plan(sc)[i]
            != DestroyStep::WaitDeviceIdle implies exists|j: int|
        0 <= j < i && spec_teardown_plan(sc)[j] == DestroyStep::WaitDeviceIdle by {
        assert(spec_teardown_plan(sc)[0] == DestroyStep::WaitDeviceIdle);
    }
}

} // verus!
