use vstd::prelude::*;

verus! {

/// Image layout for a depth attachment.
pub const IMAGE_LAYOUT_DEPTH_ATTACHMENT_OPTIMAL: i32 = 1_000_241_000;

/// Image aspect bits.
pub const IMAGE_ASPECT_COLOR: u32 = 0x1;
pub const IMAGE_ASPECT_DEPTH: u32 = 0x2;

/// "All remaining levels / layers" of an image.
pub const REMAINING_MIP_LEVELS: u32 = 0xFFFF_FFFF;
pub const REMAINING_ARRAY_LAYERS: u32 = 0xFFFF_FFFF;

/// Pipeline stage covering every command.
pub const PIPELINE_STAGE_ALL_COMMANDS: u64 = 0x1_0000;

/// Memory access bits.
pub const ACCESS_MEMORY_READ: u64 = 0x8000;
pub const ACCESS_MEMORY_WRITE: u64 = 0x1_0000;

/// The part of an image a barrier applies to.
#[derive(Debug, Clone, Copy, PartialEq, Eq, Structural)]
pub struct ImageSubresourceRange {
    pub aspect_mask: u32,
    pub base_mip_level: u32,
    pub level_count: u32,
    pub base_array_layer: u32,
    pub layer_count: u32,
}

/// A memory barrier that moves an image from one layout to another.
#[derive(Debug, Clone, Copy, PartialEq, Eq, Structural)]
pub struct ImageBarrier {
    pub image: u64,
    pub src_stage_mask: u64,
    pub src_access_mask: u64,
    pub dst_stage_mask: u64,
    pub dst_access_mask: u64,
    pub old_layout: i32,
    pub new_layout: i32,
    pub subresource_range: ImageSubresourceRange,
}

/// Every mip level and array layer of the given aspect.
pub fn image_sub_resource_range(aspect_flag: u32) -> (r: ImageSubresourceRange)
    ensures
        r == (ImageSubresourceRange {
            aspect_mask: aspect_flag,
            base_mip_level: 0,
            level_count: REMAINING_MIP_LEVELS,
            base_array_layer: 0,
            layer_count: REMAINING_ARRAY_LAYERS,
        }),
{
    ImageSubresourceRange {
        aspect_mask: aspect_flag,
        base_mip_level: 0,
        level_count: REMAINING_MIP_LEVELS,
        base_array_layer: 0,
        layer_count: REMAINING_ARRAY_LAYERS,
    }
}

/// The aspect a transition to `new_layout` touches: depth for the depth
/// attachment layout, colour otherwise.
pub open spec fn aspect_for(new_layout: i32) -> u32 {
    if new_layout == IMAGE_LAYOUT_DEPTH_ATTACHMENT_OPTIMAL {
        IMAGE_ASPECT_DEPTH
    } else {
        IMAGE_ASPECT_COLOR
    }
}

/// The barrier for a layout transition of the whole image: it waits on every
/// earlier write and makes the image readable and writable by every later
/// command.
pub fn transition_image(image: u64, current_layout: i32, new_layout: i32) -> (r: ImageBarrier)
    ensures
        r.image == image,
        r.src_stage_mask == PIPELINE_STAGE_ALL_COMMANDS,
        r.src_access_mask == ACCESS_MEMORY_WRITE,
        r.dst_stage_mask == PIPELINE_STAGE_ALL_COMMANDS,
        r.dst_access_mask == ACCESS_MEMORY_WRITE | ACCESS_MEMORY_READ,
        r.old_layout == current_layout,
        r.new_layout == new_layout,
        r.subresource_range.aspect_mask == aspect_for(new_layout),
        r.subresource_range.base_mip_level == 0,
        r.subresource_range.level_count == REMAINING_MIP_LEVELS,
        r.subresource_range.base_array_layer == 0,
        r.subresource_range.layer_count == REMAINING_ARRAY_LAYERS,
{
    let image_aspect_flag = if new_layout == IMAGE_LAYOUT_DEPTH_ATTACHMENT_OPTIMAL {
        IMAGE_ASPECT_DEPTH
    } else {
        IMAGE_ASPECT_COLOR
    };
    ImageBarrier {
        image,
        src_stage_mask: PIPELINE_STAGE_ALL_COMMANDS,
        src_access_mask: ACCESS_MEMORY_WRITE,
        dst_stage_mask: PIPELINE_STAGE_ALL_COMMANDS,
        dst_access_mask: ACCESS_MEMORY_WRITE | ACCESS_MEMORY_READ,
        old_layout: current_layout,
        new_layout,
        subresource_range: image_sub_resource_range(image_aspect_flag),
    }
}

} // verus!
