use vstd::prelude::*;

use crate::queues::QueueIndices;

verus! {

/// Surface image format 8-bit BGRA, normalised.
pub const FORMAT_B8G8R8A8_UNORM: i32 = 44;

/// Colour space sRGB, non-linear.
pub const COLOR_SPACE_SRGB_NONLINEAR: i32 = 0;

/// Present mode FIFO: presentation waits for vertical blank.
pub const PRESENT_MODE_FIFO: i32 = 2;

/// Image usage bits: transfer destination and colour attachment.
pub const IMAGE_USAGE_TRANSFER_DST: u32 = 0x2;
pub const IMAGE_USAGE_COLOR_ATTACHMENT: u32 = 0x10;

/// Sharing mode where images are used by several queue families at once.
pub const SHARING_MODE_CONCURRENT: i32 = 1;

/// Composite alpha: the surface ignores the alpha channel.
pub const COMPOSITE_ALPHA_OPAQUE: u32 = 0x1;

/// What the surface reports of its limits on a given device.
#[derive(Debug, Clone, Copy, PartialEq, Eq, Structural)]
pub struct SurfaceCapabilities {
    pub min_image_count: u32,
    /// 0 stands for "no upper bound".
    pub max_image_count: u32,
    pub current_transform: u32,
}

/// One pixel format and colour space pair that the surface accepts.
#[derive(Debug, Clone, Copy, PartialEq, Eq, Structural)]
pub struct SurfaceFormat {
    pub format: i32,
    pub color_space: i32,
}

/// A snapshot of what a surface supports on one device.
pub struct SwapchainSupportDetails {
    pub surface_capabilities: SurfaceCapabilities,
    pub surface_formats: Vec<SurfaceFormat>,
    pub present_modes: Vec<i32>,
}

#[derive(Debug, Clone, Copy, PartialEq, Eq, Structural)]
pub enum SwapchainSupportError {
    FailedToGetSupportDetails,
}

/// The driver refused to create the swapchain; carries its result code.
#[derive(Debug, Clone, Copy, PartialEq, Eq, Structural)]
pub enum SwapchainCreationError {
    SwapchainCreationError { err_message: i32 },
}

impl SwapchainSupportDetails {
    /// Gathers the three surface queries made on one device; any failed query
    /// fails the whole snapshot.
    pub fn query_swapchain_support(
        surface_capabilities: Result<SurfaceCapabilities, i32>,
        surface_formats: Result<Vec<SurfaceFormat>, i32>,
        present_modes: Result<Vec<i32>, i32>,
    ) -> (r: Result<SwapchainSupportDetails, SwapchainSupportError>)
        ensures
            r is Ok <==> (surface_capabilities is Ok && surface_formats is Ok && present_modes is Ok),
            r is Err ==> r->Err_0 == SwapchainSupportError::FailedToGetSupportDetails,
            r is Ok ==> {
                &&& r->Ok_0.surface_capabilities == surface_capabilities->Ok_0
                &&& r->Ok_0.surface_formats@ == surface_formats->Ok_0@
                &&& r->Ok_0.present_modes@ == present_modes->Ok_0@
            },
    {
        match (surface_capabilities, surface_formats, present_modes) {
            (Ok(surface_capabilities), Ok(surface_formats), Ok(present_modes)) => Ok(
                SwapchainSupportDetails { surface_capabilities, surface_formats, present_modes },
            ),
            _ => Err(SwapchainSupportError::FailedToGetSupportDetails),
        }
    }
}

/// The number of swapchain images asked for: one more than the surface's
/// minimum, held to its maximum, where a maximum of 0 sets no bound (the count
/// then stops only at the largest `u32`).
pub open spec fn image_count(min_image_count: u32, max_image_count: u32) -> int {
    let upper: int = if max_image_count == 0 { u32::MAX as int } else { max_image_count as int };
    if min_image_count + 1 <= upper { min_image_count + 1 } else { upper }
}

pub fn get_image_count(min_image_count: u32, max_image_count: u32) -> (r: u32)
    ensures
        r as int == image_count(min_image_count, max_image_count),
{
    let requested = min_image_count.saturating_add(1);
    if max_image_count == 0 || requested <= max_image_count {
        requested
    } else {
        max_image_count
    }
}

/// Whenever the surface reports `0 < min <= max`, the count is `min(min + 1, max)`
/// and lies within `[min, max]`.
pub proof fn lemma_image_count_bounded(min_image_count: u32, max_image_count: u32)
    requires
        0 < min_image_count <= max_image_count,
    ensures
        image_count(min_image_count, max_image_count) == if min_image_count + 1 <= max_image_count {
            min_image_count + 1
        } else {
            max_image_count as int
        },
        min_image_count <= image_count(min_image_count, max_image_count) <= max_image_count,
{
}

/// With no upper bound (a maximum of 0) the count is never clamped to 0: it is
/// one more than the minimum wherever that fits in a `u32`, and never below it.
pub proof fn lemma_image_count_unbounded(min_image_count: u32)
    ensures
        image_count(min_image_count, 0) >= min_image_count,
        image_count(min_image_count, 0) > 0,
        min_image_count < u32::MAX ==> image_count(min_image_count, 0) == min_image_count + 1,
{
}

/// The queue families that share the swapchain images: the graphics family,
/// and the presentation family where it is another one.
pub open spec fn sharing_families(queue_indices: QueueIndices) -> Seq<u32> {
    let g = queue_indices.graphics_queue_index->Some_0;
    let p = queue_indices.presentation_queue_index->Some_0;
    if g == p { seq![g] } else { seq![g, p] }
}

/// Everything the driver needs to create the swapchain, as plain values.
pub struct SwapchainCreateInfo {
    pub min_image_count: u32,
    pub image_format: i32,
    pub image_color_space: i32,
    pub width: u32,
    pub height: u32,
    pub image_array_layers: u32,
    pub image_usage: u32,
    pub image_sharing_mode: i32,
    pub queue_family_indices: Vec<u32>,
    pub pre_transform: u32,
    pub composite_alpha: u32,
    pub present_mode: i32,
    pub clipped: bool,
}

/// The fixed swapchain policy applied to a support snapshot, resolved queue
/// families and the window's pixel size.
pub fn swapchain_create_info(
    swapchain_support_details: &SwapchainSupportDetails,
    queue_indices: QueueIndices,
    width: u32,
    height: u32,
) -> (r: SwapchainCreateInfo)
    requires
        queue_indices.spec_complete(),
    ensures
        r.min_image_count as int == image_count(
            swapchain_support_details.surface_capabilities.min_image_count,
            swapchain_support_details.surface_capabilities.max_image_count,
        ),
        r.image_format == FORMAT_B8G8R8A8_UNORM,
        r.image_color_space == COLOR_SPACE_SRGB_NONLINEAR,
        r.width == width,
        r.height == height,
        r.image_array_layers == 1,
        r.image_usage == IMAGE_USAGE_TRANSFER_DST | IMAGE_USAGE_COLOR_ATTACHMENT,
        r.image_sharing_mode == SHARING_MODE_CONCURRENT,
        r.queue_family_indices@ == sharing_families(queue_indices),
        r.pre_transform == swapchain_support_details.surface_capabilities.current_transform,
        r.composite_alpha == COMPOSITE_ALPHA_OPAQUE,
        r.present_mode == PRESENT_MODE_FIFO,
        r.clipped,
{
    let capabilities = swapchain_support_details.surface_capabilities;
    let graphics = queue_indices.graphics_queue_index.unwrap();
    let presentation = queue_indices.presentation_queue_index.unwrap();
    let mut queue_family_indices: Vec<u32> = Vec::new();
    queue_family_indices.push(graphics);
    if presentation != graphics {
        queue_family_indices.push(presentation);
    }
    SwapchainCreateInfo {
        min_image_count: get_image_count(capabilities.min_image_count, capabilities.max_image_count),
        image_format: FORMAT_B8G8R8A8_UNORM,
        image_color_space: COLOR_SPACE_SRGB_NONLINEAR,
        width,
        height,
        image_array_layers: 1,
        image_usage: IMAGE_USAGE_TRANSFER_DST | IMAGE_USAGE_COLOR_ATTACHMENT,
        image_sharing_mode: SHARING_MODE_CONCURRENT,
        queue_family_indices,
        pre_transform: capabilities.current_transform,
        composite_alpha: COMPOSITE_ALPHA_OPAQUE,
        present_mode: PRESENT_MODE_FIFO,
        clipped: true,
    }
}

} // verus!
