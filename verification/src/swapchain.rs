//! Decisions tied to the presentation surface: which pixel format, present
//! mode, extent and image count to ask the driver for, which memory type a
//! buffer allocation may use, and the fixed render-target description. All
//! of it is a pure function of what the surface reports.

use vstd::prelude::*;

use crate::context::QueueFamilyIndices;
use crate::error::Error;
use vstd::string::StringExecFns;

verus! {

pub const FORMAT_B8G8R8A8_SRGB: u32 = 50;
pub const COLOR_SPACE_SRGB_NONLINEAR_KHR: u32 = 0;
pub const PRESENT_MODE_MAILBOX_KHR: u32 = 1;
pub const PRESENT_MODE_FIFO_KHR: u32 = 2;
pub const SHARING_MODE_EXCLUSIVE: u32 = 0;
pub const SHARING_MODE_CONCURRENT: u32 = 1;
pub const IMAGE_USAGE_COLOR_ATTACHMENT_BIT: u32 = 0x10;
pub const COMPOSITE_ALPHA_OPAQUE_BIT_KHR: u32 = 0x1;
pub const VK_TRUE: u32 = 1;

pub const SAMPLE_COUNT_1_BIT: u32 = 0x1;
pub const ATTACHMENT_LOAD_OP_CLEAR: u32 = 1;
pub const ATTACHMENT_LOAD_OP_DONT_CARE: u32 = 2;
pub const ATTACHMENT_STORE_OP_STORE: u32 = 0;
pub const ATTACHMENT_STORE_OP_DONT_CARE: u32 = 1;
pub const IMAGE_LAYOUT_UNDEFINED: u32 = 0;
pub const IMAGE_LAYOUT_COLOR_ATTACHMENT_OPTIMAL: u32 = 2;
pub const IMAGE_LAYOUT_PRESENT_SRC_KHR: u32 = 1000001002;
pub const PIPELINE_BIND_POINT_GRAPHICS: u32 = 0;
pub const SUBPASS_EXTERNAL: u32 = 0xffff_ffff;
pub const PIPELINE_STAGE_COLOR_ATTACHMENT_OUTPUT_BIT: u32 = 0x400;
pub const ACCESS_COLOR_ATTACHMENT_WRITE_BIT: u32 = 0x100;

/// A pixel format paired with a color space, as the surface reports them.
#[derive(Debug, Clone, Copy, PartialEq, Eq, Structural)]
pub struct SurfaceFormat {
    pub format: u32,
    pub color_space: u32,
}

/// A width and height in pixels.
#[derive(Debug, Clone, Copy, PartialEq, Eq, Structural)]
pub struct Extent2d {
    pub width: u32,
    pub height: u32,
}

/// What the surface reports about itself. A `current_extent.width` of
/// `u32::MAX` is the driver's sentinel for "extent determined by consumer".
#[derive(Debug, Clone, Copy, PartialEq, Eq, Structural)]
pub struct SurfaceCapabilities {
    pub min_image_count: u32,
    pub max_image_count: u32,
    pub current_extent: Extent2d,
    pub min_image_extent: Extent2d,
    pub max_image_extent: Extent2d,
    pub current_transform: u32,
}

/// The preferred format: 32-bit sRGB pixels in the sRGB-nonlinear color space.
pub open spec fn is_preferred_format(f: SurfaceFormat) -> bool {
    f.format == FORMAT_B8G8R8A8_SRGB && f.color_space == COLOR_SPACE_SRGB_NONLINEAR_KHR
}

/// The first preferred entry of the list, if any.
pub open spec fn spec_first_preferred(formats: Seq<SurfaceFormat>) -> Option<SurfaceFormat>
    decreases formats.len(),
{
    if formats.len() == 0 {
        None
    } else if is_preferred_format(formats[0]) {
        Some(formats[0])
    } else {
        spec_first_preferred(formats.skip(1))
    }
}

/// The format the bundle uses: the first preferred entry, else the first
/// entry of the list, else nothing.
pub open spec fn spec_chosen_format(formats: Seq<SurfaceFormat>) -> Option<SurfaceFormat> {
    match spec_first_preferred(formats) {
        Some(f) => Some(f),
        None => if formats.len() > 0 {
            Some(formats[0])
        } else {
            None
        },
    }
}

/// The present mode the bundle uses: the low-latency mailbox mode when the
/// surface offers it, else the universally supported FIFO mode.
pub open spec fn spec_chosen_mode(modes: Seq<u32>) -> u32 {
    if modes.contains(PRESENT_MODE_MAILBOX_KHR) {
        PRESENT_MODE_MAILBOX_KHR
    } else {
        PRESENT_MODE_FIFO_KHR
    }
}

pub open spec fn spec_clamp(x: u32, lo: u32, hi: u32) -> u32 {
    if x < lo {
        lo
    } else if x > hi {
        hi
    } else {
        x
    }
}

/// The image extent the bundle uses: the surface's current extent, unless
/// the surface leaves the choice to the consumer, in which case the window's
/// framebuffer size clamped to the supported range.
pub open spec fn spec_chosen_extent(
    caps: SurfaceCapabilities,
    fb_width: u32,
    fb_height: u32,
) -> Extent2d {
    if caps.current_extent.width != 0xffff_ffffu32 {
        caps.current_extent
    } else {
        Extent2d {
            width: spec_clamp(fb_width, caps.min_image_extent.width, caps.max_image_extent.width),
            height: spec_clamp(
                fb_height,
                caps.min_image_extent.height,
                caps.max_image_extent.height,
            ),
        }
    }
}

/// The image count the bundle requests: one more than the minimum, capped
/// at the surface's maximum. A reported maximum of zero means the surface
/// sets no maximum, so no cap applies.
pub open spec fn spec_chosen_image_count(caps: SurfaceCapabilities) -> u32 {
    if caps.max_image_count == 0 || caps.min_image_count + 1 <= caps.max_image_count {
        (caps.min_image_count + 1) as u32
    } else {
        caps.max_image_count
    }
}

/// Picks the surface format by preference order. Fails only when the
/// surface reports no format at all.
pub fn choose_surface_format(formats: &Vec<SurfaceFormat>) -> (r: Result<SurfaceFormat, Error>)
    ensures
        r is Ok <==> formats@.len() > 0,
        r matches Ok(f) ==> Some(f) == spec_chosen_format(formats@),
        r matches Err(e) ==> (e matches Error::Other(s) && s@ == "no good format found"@),
{
    let n = formats.len();
    let mut i: usize = 0;
    proof {
        assert(formats@.skip(0) =~= formats@);
    }
    while i < n
        invariant
            n == formats@.len(),
            i <= n,
            forall|j: int| 0 <= j < i ==> !is_preferred_format(formats@[j]),
            spec_first_preferred(formats@.skip(i as int)) == spec_first_preferred(formats@),
        decreases n - i,
    {
        let f = formats[i];
        proof {
            assert(formats@.skip(i as int)[0] == formats@[i as int]);
        }
        if f.format == FORMAT_B8G8R8A8_SRGB && f.color_space == COLOR_SPACE_SRGB_NONLINEAR_KHR {
            return Ok(f);
        }
        proof {
            assert(formats@.skip(i as int).skip(1) =~= formats@.skip(i + 1));
        }
        i = i + 1;
    }
    proof {
        assert(formats@.skip(n as int) =~= Seq::<SurfaceFormat>::empty());
    }
    if n > 0 {
        Ok(formats[0])
    } else {
        Err(Error::Other(String::from_str("no good format found")))
    }
}

/// Picks the present mode by preference order. Always succeeds: FIFO support
/// is universal, so it is the fallback.
pub fn choose_present_mode(modes: &Vec<u32>) -> (mode: u32)
    ensures
        mode == spec_chosen_mode(modes@),
{
    let n = modes.len();
    let mut i: usize = 0;
    while i < n
        invariant
            n == modes@.len(),
            i <= n,
            forall|j: int| 0 <= j < i ==> modes@[j] != PRESENT_MODE_MAILBOX_KHR,
        decreases n - i,
    {
        if modes[i] == PRESENT_MODE_MAILBOX_KHR {
            return PRESENT_MODE_MAILBOX_KHR;
        }
        i = i + 1;
    }
    assert(!modes@.contains(PRESENT_MODE_MAILBOX_KHR));
    PRESENT_MODE_FIFO_KHR
}

fn clamp_u32(x: u32, lo: u32, hi: u32) -> (r: u32)
    requires
        lo <= hi,
    ensures
        r == spec_clamp(x, lo, hi),
{
    if x < lo {
        lo
    } else if x > hi {
        hi
    } else {
        x
    }
}

/// Computes the image extent from the capabilities and the window's
/// framebuffer size. The supported range must be non-empty, which the
/// driver guarantees of a valid surface.
pub fn choose_swap_extent(caps: &SurfaceCapabilities, fb_width: u32, fb_height: u32) -> (r:
    Extent2d)
    requires
        caps.min_image_extent.width <= caps.max_image_extent.width,
        caps.min_image_extent.height <= caps.max_image_extent.height,
    ensures
        r == spec_chosen_extent(*caps, fb_width, fb_height),
{
    if caps.current_extent.width != 0xffff_ffffu32 {
        Extent2d { width: caps.current_extent.width, height: caps.current_extent.height }
    } else {
        Extent2d {
            width: clamp_u32(fb_width, caps.min_image_extent.width, caps.max_image_extent.width),
            height: clamp_u32(
                fb_height,
                caps.min_image_extent.height,
                caps.max_image_extent.height,
            ),
        }
    }
}

/// Everything the swapchain creation call needs, decided up front from what
/// the surface reports.
pub struct SwapchainConfig {
    pub min_image_count: u32,
    pub image_format: u32,
    pub image_color_space: u32,
    pub image_extent: Extent2d,
    pub image_array_layers: u32,
    pub image_usage: u32,
    pub image_sharing_mode: u32,
    pub queue_family_indices: Vec<u32>,
    pub pre_transform: u32,
    pub composite_alpha: u32,
    pub present_mode: u32,
    pub clipped: u32,
}

/// Decides the whole swapchain configuration: format and present mode by
/// preference, extent and image count from the capabilities, and concurrent
/// sharing exactly when graphics and present live in different queue
/// families. Fails only when the surface reports no format.
pub fn swapchain_config(
    formats: &Vec<SurfaceFormat>,
    modes: &Vec<u32>,
    caps: &SurfaceCapabilities,
    fb_width: u32,
    fb_height: u32,
    indices: &QueueFamilyIndices,
) -> (r: Result<SwapchainConfig, Error>)
    requires
        caps.min_image_extent.width <= caps.max_image_extent.width,
        caps.min_image_extent.height <= caps.max_image_extent.height,
        caps.min_image_count < 0xffff_ffffu32,
    ensures
        r is Ok <==> formats@.len() > 0,
        r matches Err(e) ==> (e matches Error::Other(s) && s@ == "no good format found"@),
        r matches Ok(c) ==> {
            &&& Some(
                SurfaceFormat { format: c.image_format, color_space: c.image_color_space },
            ) == spec_chosen_format(formats@)
            &&& c.present_mode == spec_chosen_mode(modes@)
            &&& c.image_extent == spec_chosen_extent(*caps, fb_width, fb_height)
            &&& c.min_image_count == spec_chosen_image_count(*caps)
            &&& c.image_array_layers == 1
            &&& c.image_usage == IMAGE_USAGE_COLOR_ATTACHMENT_BIT
            &&& c.pre_transform == caps.current_transform
            &&& c.composite_alpha == COMPOSITE_ALPHA_OPAQUE_BIT_KHR
            &&& c.clipped == VK_TRUE
            &&& indices.graphics != indices.present ==> (c.image_sharing_mode
                == SHARING_MODE_CONCURRENT && c.queue_family_indices@ =~= seq![
                indices.graphics,
                indices.present,
            ])
            &&& indices.graphics == indices.present ==> (c.image_sharing_mode
                == SHARING_MODE_EXCLUSIVE && c.queue_family_indices@.len() == 0)
        },
{
    let format = match choose_surface_format(formats) {
        Ok(f) => f,
        Err(e) => {
            return Err(e);
        },
    };
    let present_mode = choose_present_mode(modes);
    let extent = choose_swap_extent(caps, fb_width, fb_height);

    let want = caps.min_image_count + 1;
    let image_count = if caps.max_image_count == 0 || want <= caps.max_image_count {
        want
    } else {
        caps.max_image_count
    };

    let mut queue_family_indices: Vec<u32> = Vec::new();
    let image_sharing_mode = if indices.graphics != indices.present {
        queue_family_indices.push(indices.graphics);
        queue_family_indices.push(indices.present);
        SHARING_MODE_CONCURRENT
    } else {
        SHARING_MODE_EXCLUSIVE
    };

    Ok(
        SwapchainConfig {
            min_image_count: image_count,
            image_format: format.format,
            image_color_space: format.color_space,
            image_extent: extent,
            image_array_layers: 1,
            image_usage: IMAGE_USAGE_COLOR_ATTACHMENT_BIT,
            image_sharing_mode,
            queue_family_indices,
            pre_transform: caps.current_transform,
            composite_alpha: COMPOSITE_ALPHA_OPAQUE_BIT_KHR,
            present_mode,
            clipped: VK_TRUE,
        },
    )
}

/// Whether memory type `i` may back an allocation: the allocation's type
/// filter admits the index and the type carries every wanted property flag
/// — an allocation asking for host-visible and host-coherent memory may
/// not land on a type that is only one of the two.
pub open spec fn spec_memory_type_matches(
    flags: Seq<u32>,
    type_filter: u32,
    properties: u32,
    i: int,
) -> bool {
    &&& type_filter & (1u32 << (i as u32)) != 0
    &&& flags[i] & properties == properties
}

/// Finds the first memory type admitted by the filter that carries every
/// wanted property. The device reports at most 32 memory types.
pub fn find_memory_type(memory_type_flags: &Vec<u32>, type_filter: u32, properties: u32) -> (r:
    Result<u32, Error>)
    requires
        memory_type_flags@.len() <= 32,
    ensures
        r matches Ok(i) ==> {
            &&& 0 <= i < memory_type_flags@.len()
            &&& spec_memory_type_matches(memory_type_flags@, type_filter, properties, i as int)
            &&& forall|j: int|
                0 <= j < i ==> !spec_memory_type_matches(
                    memory_type_flags@,
                    type_filter,
                    properties,
                    j,
                )
        },
        r is Err <==> forall|j: int|
            0 <= j < memory_type_flags@.len() ==> !spec_memory_type_matches(
                memory_type_flags@,
                type_filter,
                properties,
                j,
            ),
        r matches Err(e) ==> (e matches Error::Other(s) && s@ == "could not find memory type"@),
{
    let n = memory_type_flags.len();
    let mut i: usize = 0;
    while i < n
        invariant
            n == memory_type_flags@.len(),
            n <= 32,
            i <= n,
            forall|j: int|
                0 <= j < i ==> !spec_memory_type_matches(
                    memory_type_flags@,
                    type_filter,
                    properties,
                    j,
                ),
        decreases n - i,
    {
        if (type_filter & (1u32 << (i as u32))) != 0 && (memory_type_flags[i] & properties)
            == properties {
            proof {
                assert(spec_memory_type_matches(
                    memory_type_flags@,
                    type_filter,
                    properties,
                    i as int,
                ));
            }
            return Ok(i as u32);
        }
        i = i + 1;
    }
    Err(Error::Other(String::from_str("could not find memory type")))
}

/// The fixed render-target description: one color attachment cleared on
/// load, stored on store, presented at the end of the pass, with one
/// subpass and one external dependency on the color-attachment-output stage.
#[derive(Debug, Clone, Copy, PartialEq, Eq, Structural)]
pub struct RenderPassConfig {
    pub attachment_format: u32,
    pub attachment_samples: u32,
    pub load_op: u32,
    pub store_op: u32,
    pub stencil_load_op: u32,
    pub stencil_store_op: u32,
    pub initial_layout: u32,
    pub final_layout: u32,
    pub color_attachment_index: u32,
    pub color_attachment_layout: u32,
    pub bind_point: u32,
    pub dependency_src_subpass: u32,
    pub dependency_dst_subpass: u32,
    pub dependency_src_stage_mask: u32,
    pub dependency_dst_stage_mask: u32,
    pub dependency_src_access_mask: u32,
    pub dependency_dst_access_mask: u32,
}

/// Builds the render-target description for the chosen format.
pub fn render_pass_config(format: u32) -> (c: RenderPassConfig)
    ensures
        c == (RenderPassConfig {
            attachment_format: format,
            attachment_samples: SAMPLE_COUNT_1_BIT,
            load_op: ATTACHMENT_LOAD_OP_CLEAR,
            store_op: ATTACHMENT_STORE_OP_STORE,
            stencil_load_op: ATTACHMENT_LOAD_OP_DONT_CARE,
            stencil_store_op: ATTACHMENT_STORE_OP_DONT_CARE,
            initial_layout: IMAGE_LAYOUT_UNDEFINED,
            final_layout: IMAGE_LAYOUT_PRESENT_SRC_KHR,
            color_attachment_index: 0,
            color_attachment_layout: IMAGE_LAYOUT_COLOR_ATTACHMENT_OPTIMAL,
            bind_point: PIPELINE_BIND_POINT_GRAPHICS,
            dependency_src_subpass: SUBPASS_EXTERNAL,
            dependency_dst_subpass: 0,
            dependency_src_stage_mask: PIPELINE_STAGE_COLOR_ATTACHMENT_OUTPUT_BIT,
            dependency_dst_stage_mask: PIPELINE_STAGE_COLOR_ATTACHMENT_OUTPUT_BIT,
            dependency_src_access_mask: 0,
            dependency_dst_access_mask: ACCESS_COLOR_ATTACHMENT_WRITE_BIT,
        }),
{
    RenderPassConfig {
        attachment_format: format,
        attachment_samples: SAMPLE_COUNT_1_BIT,
        load_op: ATTACHMENT_LOAD_OP_CLEAR,
        store_op: ATTACHMENT_STORE_OP_STORE,
        stencil_load_op: ATTACHMENT_LOAD_OP_DONT_CARE,
        stencil_store_op: ATTACHMENT_STORE_OP_DONT_CARE,
        initial_layout: IMAGE_LAYOUT_UNDEFINED,
        final_layout: IMAGE_LAYOUT_PRESENT_SRC_KHR,
        color_attachment_index: 0,
        color_attachment_layout: IMAGE_LAYOUT_COLOR_ATTACHMENT_OPTIMAL,
        bind_point: PIPELINE_BIND_POINT_GRAPHICS,
        dependency_src_subpass: SUBPASS_EXTERNAL,
        dependency_dst_subpass: 0,
        dependency_src_stage_mask: PIPELINE_STAGE_COLOR_ATTACHMENT_OUTPUT_BIT,
        dependency_dst_stage_mask: PIPELINE_STAGE_COLOR_ATTACHMENT_OUTPUT_BIT,
        dependency_src_access_mask: 0,
        dependency_dst_access_mask: ACCESS_COLOR_ATTACHMENT_WRITE_BIT,
    }
}

} // verus!
