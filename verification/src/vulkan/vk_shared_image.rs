//! A GPU image whose memory can be handed to another process.

use vstd::prelude::*;
use crate::vulkan::vk_commands::ImageBarrier;
use crate::vulkan::vk_types::{Access, BlitRegion, Format, ImageHandle, ImageLayout, Offset3D};

verus! {

/// What both processes know of a shared image.
#[derive(Clone, Copy, Debug, PartialEq, Eq)]
pub struct SharedImageData {
    /// The identifier under which the image is shared.
    pub id: u32,
    pub width: u32,
    pub height: u32,
    pub format: Format,
    /// The size in bytes of the memory behind the image.
    pub allocation_size: u64,
}

/// A shared image: the driver's handle, the layout the image is in whenever
/// no transfer is running, and its description.
#[derive(Debug, PartialEq, Eq)]
pub struct VkSharedImage {
    pub image: ImageHandle,
    pub image_layout: ImageLayout,
    pub data: SharedImageData,
}

impl VkSharedImage {
    /// Corners of a box are signed 32-bit numbers, so an image whose box can
    /// be named is no wider and no higher than the largest of them.
    pub open spec fn wf(&self) -> bool {
        &&& self.data.width <= i32::MAX
        &&& self.data.height <= i32::MAX
    }

    /// The box that covers the whole image: from `(0, 0, 0)` to
    /// `(width, height, 1)`.
    pub open spec fn spec_full_region(&self) -> BlitRegion {
        BlitRegion {
            start: Offset3D { x: 0, y: 0, z: 0 },
            end: Offset3D { x: self.data.width as i32, y: self.data.height as i32, z: 1 },
        }
    }

    /// Describes an image that the driver has created with the given size,
    /// format and identifier. The driver's answer is the handle, the layout
    /// it left the image in, and the size of the memory behind it.
    ///
    /// There is no such image when the width or the height does not fit a
    /// corner of a box.
    pub fn new(
        width: u32,
        height: u32,
        format: Format,
        id: u32,
        image: ImageHandle,
        image_layout: ImageLayout,
        allocation_size: u64,
    ) -> (shared: Option<VkSharedImage>)
        ensures
            shared.is_some() <==> (width <= i32::MAX && height <= i32::MAX),
            shared matches Some(s) ==> {
                &&& s.wf()
                &&& s.image == image
                &&& s.image_layout == image_layout
                &&& s.data == (SharedImageData { id, width, height, format, allocation_size })
            },
    {
        if width > 0x7fff_ffff || height > 0x7fff_ffff {
            None
        } else {
            Some(
                VkSharedImage {
                    image,
                    image_layout,
                    data: SharedImageData { id, width, height, format, allocation_size },
                },
            )
        }
    }

    /// The box that covers the whole image.
    #[verifier::when_used_as_spec(spec_full_region)]
    pub fn full_region(&self) -> (region: BlitRegion)
        requires
            self.wf(),
        ensures
            region == self.spec_full_region(),
            region.start == (Offset3D { x: 0, y: 0, z: 0 }),
            region.end.x == self.data.width,
            region.end.y == self.data.height,
            region.end.z == 1,
    {
        BlitRegion {
            start: Offset3D { x: 0, y: 0, z: 0 },
            end: Offset3D { x: self.data.width as i32, y: self.data.height as i32, z: 1 },
        }
    }

    /// The barrier that takes `image` from one layout and access to another.
    pub fn gen_img_mem_barrier(
        image: ImageHandle,
        old_layout: ImageLayout,
        new_layout: ImageLayout,
        src_access: Access,
        dst_access: Access,
    ) -> (barrier: ImageBarrier)
        ensures
            barrier == (ImageBarrier { image, old_layout, new_layout, src_access, dst_access }),
    {
        ImageBarrier { image, old_layout, new_layout, src_access, dst_access }
    }
}

} // verus!
