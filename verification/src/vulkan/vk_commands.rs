//! The commands that a transfer records, as plain values.
//!
//! A transfer is a list of these, in the order in which they are recorded.
//! Whoever owns the device replays the list, one driver call per command.

use vstd::prelude::*;
use crate::vulkan::vk_types::{
    Access, BlitRegion, BufferHandle, Extent3D, ImageHandle, ImageLayout, Offset3D, PipelineStage,
};

verus! {

/// A change of the access that is allowed on a whole buffer.
#[derive(Clone, Copy, Debug, PartialEq, Eq)]
pub struct BufferBarrier {
    pub buffer: BufferHandle,
    pub src_access: Access,
    pub dst_access: Access,
    /// The bytes covered, counted from the start of the buffer.
    pub size: u64,
}

/// A change of the layout of an image and of the access that is allowed on it.
/// It covers the colour aspect of the one mip level and the one layer that
/// the images of this library have.
#[derive(Clone, Copy, Debug, PartialEq, Eq)]
pub struct ImageBarrier {
    pub image: ImageHandle,
    pub old_layout: ImageLayout,
    pub new_layout: ImageLayout,
    pub src_access: Access,
    pub dst_access: Access,
}

/// The image barriers of one pipeline barrier, in the order in which they are
/// handed to the driver. No transfer needs more than two.
#[derive(Clone, Copy, Debug, PartialEq, Eq)]
pub enum ImageBarriers {
    Neither,
    One(ImageBarrier),
    Two(ImageBarrier, ImageBarrier),
}

/// The part of an image that a copy or blit addresses: always its colour
/// aspect, at one mip level, over a run of array layers.
#[derive(Clone, Copy, Debug, PartialEq, Eq)]
pub struct ColorSubresource {
    pub mip_level: u32,
    pub base_array_layer: u32,
    pub layer_count: u32,
}

/// What a copy between a buffer and an image moves. The bytes start at the
/// beginning of the buffer.
#[derive(Clone, Copy, Debug, PartialEq, Eq)]
pub struct BufferImageCopy {
    /// Texels per row in the buffer; 0 means that rows are tightly packed.
    pub buffer_row_length: u32,
    /// Rows per slice in the buffer; 0 means that slices are tightly packed.
    pub buffer_image_height: u32,
    pub image_subresource: ColorSubresource,
    pub image_offset: Offset3D,
    pub image_extent: Extent3D,
}

/// How a blit picks a source texel when the two boxes differ in size.
#[derive(Clone, Copy, Debug, PartialEq, Eq)]
pub enum Filter {
    Nearest,
}

/// One recorded command.
#[derive(Clone, Copy, Debug, PartialEq, Eq)]
pub enum Command {
    /// Makes everything before it in `src_stage` happen before everything
    /// after it in `dst_stage`, and applies the given barriers.
    PipelineBarrier {
        src_stage: PipelineStage,
        dst_stage: PipelineStage,
        buffer_barrier: Option<BufferBarrier>,
        image_barriers: ImageBarriers,
    },
    /// Copies the bytes of `buffer` into `region` of `image`.
    CopyBufferToImage {
        buffer: BufferHandle,
        image: ImageHandle,
        image_layout: ImageLayout,
        region: BufferImageCopy,
    },
    /// Copies `region` of `image` into `buffer`.
    CopyImageToBuffer {
        image: ImageHandle,
        image_layout: ImageLayout,
        buffer: BufferHandle,
        region: BufferImageCopy,
    },
    /// Draws the box `src_region` of `src_image` into the box `dst_region` of
    /// `dst_image`, scaling where the boxes differ in size.
    BlitImage {
        src_image: ImageHandle,
        src_layout: ImageLayout,
        src_subresource: ColorSubresource,
        src_region: BlitRegion,
        dst_image: ImageHandle,
        dst_layout: ImageLayout,
        dst_subresource: ColorSubresource,
        dst_region: BlitRegion,
        filter: Filter,
    },
}

impl ColorSubresource {
    /// Mip level 0 of array layer 0, the only part that the images of this
    /// library have.
    pub open spec fn spec_base() -> ColorSubresource {
        ColorSubresource { mip_level: 0, base_array_layer: 0, layer_count: 1 }
    }

    /// Mip level 0 of array layer 0.
    #[verifier::when_used_as_spec(spec_base)]
    pub fn base() -> (subresource: ColorSubresource)
        ensures
            subresource == Self::spec_base(),
    {
        ColorSubresource { mip_level: 0, base_array_layer: 0, layer_count: 1 }
    }
}

impl BufferImageCopy {
    /// The copy of a whole image of the given size, tightly packed in the
    /// buffer.
    pub open spec fn spec_whole_image(width: u32, height: u32) -> BufferImageCopy {
        BufferImageCopy {
            buffer_row_length: 0,
            buffer_image_height: 0,
            image_subresource: ColorSubresource::spec_base(),
            image_offset: Offset3D { x: 0, y: 0, z: 0 },
            image_extent: Extent3D { width, height, depth: 1 },
        }
    }

    /// The copy of a whole image of the given size, tightly packed in the
    /// buffer.
    #[verifier::when_used_as_spec(spec_whole_image)]
    pub fn whole_image(width: u32, height: u32) -> (region: BufferImageCopy)
        ensures
            region == Self::spec_whole_image(width, height),
    {
        BufferImageCopy {
            buffer_row_length: 0,
            buffer_image_height: 0,
            image_subresource: ColorSubresource::base(),
            image_offset: Offset3D { x: 0, y: 0, z: 0 },
            image_extent: Extent3D { width, height, depth: 1 },
        }
    }
}

} // verus!
