//! A shared image together with its staging buffer, and the transfers
//! between the two and another image.
//!
//! A transfer is handed out as the list of commands to record. The list is
//! fixed by the image, the other image and the layouts the caller names, so
//! each function states the exact list it returns.

use vstd::prelude::*;
use crate::vulkan::vk_commands::{
    BufferBarrier, BufferImageCopy, ColorSubresource, Command, Filter, ImageBarrier, ImageBarriers,
};
use crate::vulkan::vk_cpu_buffer::VkCpuBuffer;
use crate::vulkan::vk_shared_image::VkSharedImage;
use crate::vulkan::vk_types::{
    Access, BlitRegion, BufferHandle, GpuError, ImageHandle, ImageLayout, PipelineStage,
};

verus! {

/// A shared image and the staging buffer that holds its bytes on the host.
///
/// The pair is given up only through [`VkCpuSharedImage::destroy`], which
/// says what has to be released and in which order.
#[derive(Debug, PartialEq, Eq)]
pub struct VkCpuSharedImage {
    pub image: VkSharedImage,
    pub cpu_buffer: VkCpuBuffer,
}

/// A resource that the owner of the device has to release.
#[derive(Clone, Copy, Debug, PartialEq, Eq)]
pub enum Release {
    Buffer(BufferHandle),
    Image(ImageHandle),
}

impl VkCpuSharedImage {
    /// The image's box can be named, and the staging buffer holds exactly the
    /// bytes of the image.
    pub open spec fn wf(&self) -> bool {
        &&& self.image.wf()
        &&& self.cpu_buffer.buffer_size == self.image.data.allocation_size
    }

    /// The size in bytes of the staging buffer that `image` needs: the size
    /// of the memory behind the image.
    pub fn staging_size(image: &VkSharedImage) -> (size: u64)
        ensures
            size == image.data.allocation_size,
    {
        image.data.allocation_size
    }

    /// What pairing `image` with the outcome of creating its staging buffer
    /// gives: the pair where the buffer was created, the driver's failure
    /// where it was not. The buffer is taken to have the size that
    /// [`VkCpuSharedImage::staging_size`] asks for.
    pub open spec fn paired(
        image: VkSharedImage,
        staging: Result<BufferHandle, GpuError>,
    ) -> Result<VkCpuSharedImage, GpuError> {
        match staging {
            Ok(handle) => Ok(
                VkCpuSharedImage {
                    image,
                    cpu_buffer: VkCpuBuffer {
                        handle,
                        buffer_size: image.data.allocation_size,
                    },
                },
            ),
            Err(e) => Err(e),
        }
    }

    /// Pairs an image that the driver has created with a staging buffer. An
    /// image that could not be created leaves nothing to pair, and its
    /// failure is the result whatever became of the buffer.
    pub fn new(
        created: Result<VkSharedImage, GpuError>,
        staging: Result<BufferHandle, GpuError>,
    ) -> (pair: Result<VkCpuSharedImage, GpuError>)
        ensures
            pair == match created {
                Ok(image) => Self::paired(image, staging),
                Err(e) => Err(e),
            },
            (created matches Ok(image) && image.wf()) ==> (pair matches Ok(p) ==> p.wf()),
    {
        match created {
            Ok(image) => Self::from_shared_image(image, staging),
            Err(e) => Err(e),
        }
    }

    /// Pairs an existing shared image with the outcome of creating its
    /// staging buffer.
    pub fn from_shared_image(
        image: VkSharedImage,
        staging: Result<BufferHandle, GpuError>,
    ) -> (pair: Result<VkCpuSharedImage, GpuError>)
        ensures
            pair == Self::paired(image, staging),
            pair.is_ok() <==> staging.is_ok(),
            pair matches Ok(p) ==> (p.wf() <==> image.wf()),
    {
        match staging {
            Ok(handle) => {
                let buffer_size = image.data.allocation_size;
                Ok(VkCpuSharedImage { image, cpu_buffer: VkCpuBuffer::new(handle, buffer_size) })
            },
            Err(e) => Err(e),
        }
    }

    /// What has to be released to give the pair up, in the order in which it
    /// has to be released: the staging buffer, then the shared image.
    pub open spec fn release_order(&self) -> Seq<Release> {
        seq![Release::Buffer(self.cpu_buffer.handle), Release::Image(self.image.image)]
    }

    /// Gives the pair up. The result says what the owner of the device has to
    /// release, first to last.
    pub fn destroy(self) -> (releases: Vec<Release>)
        ensures
            releases@ == self.release_order(),
    {
        let mut releases: Vec<Release> = Vec::new();
        releases.push(Release::Buffer(self.cpu_buffer.handle));
        releases.push(Release::Image(self.image.image));
        assert(releases@ =~= self.release_order());
        releases
    }

    /// The commands that carry the staging buffer's bytes into the shared
    /// image and from there into `dst_region` of `dst_image`:
    ///
    /// 1. the buffer becomes readable for the host's flush;
    /// 2. the buffer becomes a transfer source and the shared image a
    ///    transfer destination;
    /// 3. the buffer is copied into the whole shared image;
    /// 4. the buffer is let go, the shared image becomes a transfer source
    ///    and `dst_image` a transfer destination;
    /// 5. the whole shared image is blitted into `dst_region`;
    /// 6. the shared image returns to its own layout and `dst_image` goes to
    ///    `target_dst_image_layout`.
    pub open spec fn send_commands(
        &self,
        dst_image: ImageHandle,
        orig_dst_image_layout: ImageLayout,
        target_dst_image_layout: ImageLayout,
        dst_region: BlitRegion,
    ) -> Seq<Command> {
        let buffer = self.cpu_buffer.handle;
        let size = self.cpu_buffer.buffer_size;
        let shared = self.image.image;
        seq![
            Command::PipelineBarrier {
                src_stage: PipelineStage::TopOfPipe,
                dst_stage: PipelineStage::Host,
                buffer_barrier: Some(
                    BufferBarrier {
                        buffer,
                        src_access: Access::NoAccess,
                        dst_access: Access::HostRead,
                        size,
                    },
                ),
                image_barriers: ImageBarriers::Neither,
            },
            Command::PipelineBarrier {
                src_stage: PipelineStage::Host,
                dst_stage: PipelineStage::Transfer,
                buffer_barrier: Some(
                    BufferBarrier {
                        buffer,
                        src_access: Access::HostRead,
                        dst_access: Access::TransferRead,
                        size,
                    },
                ),
                image_barriers: ImageBarriers::One(
                    ImageBarrier {
                        image: shared,
                        old_layout: self.image.image_layout,
                        new_layout: ImageLayout::spec_transfer_dst_optimal(),
                        src_access: Access::NoAccess,
                        dst_access: Access::TransferWrite,
                    },
                ),
            },
            Command::CopyBufferToImage {
                buffer,
                image: shared,
                image_layout: ImageLayout::spec_transfer_dst_optimal(),
                region: BufferImageCopy::spec_whole_image(
                    self.image.data.width,
                    self.image.data.height,
                ),
            },
            Command::PipelineBarrier {
                src_stage: PipelineStage::Transfer,
                dst_stage: PipelineStage::Transfer,
                buffer_barrier: Some(
                    BufferBarrier {
                        buffer,
                        src_access: Access::TransferRead,
                        dst_access: Access::NoAccess,
                        size,
                    },
                ),
                image_barriers: ImageBarriers::Two(
                    ImageBarrier {
                        image: shared,
                        old_layout: ImageLayout::spec_transfer_dst_optimal(),
                        new_layout: ImageLayout::spec_transfer_src_optimal(),
                        src_access: Access::TransferWrite,
                        dst_access: Access::TransferRead,
                    },
                    ImageBarrier {
                        image: dst_image,
                        old_layout: orig_dst_image_layout,
                        new_layout: ImageLayout::spec_transfer_dst_optimal(),
                        src_access: Access::NoAccess,
                        dst_access: Access::TransferWrite,
                    },
                ),
            },
            Command::BlitImage {
                src_image: shared,
                src_layout: ImageLayout::spec_transfer_src_optimal(),
                src_subresource: ColorSubresource::spec_base(),
                src_region: self.image.spec_full_region(),
                dst_image,
                dst_layout: ImageLayout::spec_transfer_dst_optimal(),
                dst_subresource: ColorSubresource::spec_base(),
                dst_region,
                filter: Filter::Nearest,
            },
            Command::PipelineBarrier {
                src_stage: PipelineStage::Transfer,
                dst_stage: PipelineStage::BottomOfPipe,
                buffer_barrier: None,
                image_barriers: ImageBarriers::Two(
                    ImageBarrier {
                        image: shared,
                        old_layout: ImageLayout::spec_transfer_src_optimal(),
                        new_layout: self.image.image_layout,
                        src_access: Access::TransferRead,
                        dst_access: Access::NoAccess,
                    },
                    ImageBarrier {
                        image: dst_image,
                        old_layout: ImageLayout::spec_transfer_dst_optimal(),
                        new_layout: target_dst_image_layout,
                        src_access: Access::TransferWrite,
                        dst_access: Access::NoAccess,
                    },
                ),
            },
        ]
    }

    /// Records the transfer from the staging buffer through the shared image
    /// into `dst_region` of `dst_image`. The destination is in
    /// `orig_dst_image_layout` before the transfer and is left in
    /// `target_dst_image_layout`.
    pub fn send_image_blit_with_extents(
        &self,
        dst_image: ImageHandle,
        orig_dst_image_layout: ImageLayout,
        target_dst_image_layout: ImageLayout,
        dst_region: BlitRegion,
    ) -> (commands: Vec<Command>)
        requires
            self.wf(),
        ensures
            commands@ == self.send_commands(
                dst_image,
                orig_dst_image_layout,
                target_dst_image_layout,
                dst_region,
            ),
    {
        let buffer = self.cpu_buffer.handle;
        let size = self.cpu_buffer.buffer_size;
        let shared = self.image.image;
        let own_layout = self.image.image_layout;
        let transfer_src = ImageLayout::transfer_src_optimal();
        let transfer_dst = ImageLayout::transfer_dst_optimal();
        let src_region = self.image.full_region();
        let mut commands: Vec<Command> = Vec::new();

        // The host's flush has to see the buffer.
        commands.push(
            Command::PipelineBarrier {
                src_stage: PipelineStage::TopOfPipe,
                dst_stage: PipelineStage::Host,
                buffer_barrier: Some(
                    VkCpuBuffer::gen_buffer_memory_barrier(
                        buffer,
                        Access::NoAccess,
                        Access::HostRead,
                        size,
                    ),
                ),
                image_barriers: ImageBarriers::Neither,
            },
        );

        // Buffer into shared image.
        commands.push(
            Command::PipelineBarrier {
                src_stage: PipelineStage::Host,
                dst_stage: PipelineStage::Transfer,
                buffer_barrier: Some(
                    VkCpuBuffer::gen_buffer_memory_barrier(
                        buffer,
                        Access::HostRead,
                        Access::TransferRead,
                        size,
                    ),
                ),
                image_barriers: ImageBarriers::One(
                    VkSharedImage::gen_img_mem_barrier(
                        shared,
                        own_layout,
                        transfer_dst,
                        Access::NoAccess,
                        Access::TransferWrite,
                    ),
                ),
            },
        );
        commands.push(
            Command::CopyBufferToImage {
                buffer,
                image: shared,
                image_layout: transfer_dst,
                region: BufferImageCopy::whole_image(self.image.data.width, self.image.data.height),
            },
        );

        // Shared image into destination.
        commands.push(
            Command::PipelineBarrier {
                src_stage: PipelineStage::Transfer,
                dst_stage: PipelineStage::Transfer,
                buffer_barrier: Some(
                    VkCpuBuffer::gen_buffer_memory_barrier(
                        buffer,
                        Access::TransferRead,
                        Access::NoAccess,
                        size,
                    ),
                ),
                image_barriers: ImageBarriers::Two(
                    VkSharedImage::gen_img_mem_barrier(
                        shared,
                        transfer_dst,
                        transfer_src,
                        Access::TransferWrite,
                        Access::TransferRead,
                    ),
                    VkSharedImage::gen_img_mem_barrier(
                        dst_image,
                        orig_dst_image_layout,
                        transfer_dst,
                        Access::NoAccess,
                        Access::TransferWrite,
                    ),
                ),
            },
        );
        commands.push(
            Command::BlitImage {
                src_image: shared,
                src_layout: transfer_src,
                src_subresource: ColorSubresource::base(),
                src_region,
                dst_image,
                dst_layout: transfer_dst,
                dst_subresource: ColorSubresource::base(),
                dst_region,
                filter: Filter::Nearest,
            },
        );

        // Both images go to the layouts they are expected in afterwards.
        commands.push(
            Command::PipelineBarrier {
                src_stage: PipelineStage::Transfer,
                dst_stage: PipelineStage::BottomOfPipe,
                buffer_barrier: None,
                image_barriers: ImageBarriers::Two(
                    VkSharedImage::gen_img_mem_barrier(
                        shared,
                        transfer_src,
                        own_layout,
                        Access::TransferRead,
                        Access::NoAccess,
                    ),
                    VkSharedImage::gen_img_mem_barrier(
                        dst_image,
                        transfer_dst,
                        target_dst_image_layout,
                        Access::TransferWrite,
                        Access::NoAccess,
                    ),
                ),
            },
        );

        assert(commands@ =~= self.send_commands(
            dst_image,
            orig_dst_image_layout,
            target_dst_image_layout,
            dst_region,
        ));
        commands
    }

    /// Records the transfer from the staging buffer through the shared image
    /// into the box of `dst_image` that has the shared image's own size.
    pub fn send_image_blit(
        &self,
        dst_image: ImageHandle,
        orig_dst_image_layout: ImageLayout,
        target_dst_image_layout: ImageLayout,
    ) -> (commands: Vec<Command>)
        requires
            self.wf(),
        ensures
            commands@ == self.send_commands(
                dst_image,
                orig_dst_image_layout,
                target_dst_image_layout,
                self.image.spec_full_region(),
            ),
    {
        let dst_region = self.image.full_region();
        self.send_image_blit_with_extents(
            dst_image,
            orig_dst_image_layout,
            target_dst_image_layout,
            dst_region,
        )
    }

    /// The commands that carry `src_region` of `src_image` into the shared
    /// image and from there into the staging buffer:
    ///
    /// 1. `src_image` becomes a transfer source and the shared image a
    ///    transfer destination;
    /// 2. `src_region` is blitted into the whole shared image;
    /// 3. `src_image` goes to `target_src_image_layout`, the shared image
    ///    becomes a transfer source and the buffer a transfer destination;
    /// 4. the whole shared image is copied into the buffer;
    /// 5. the shared image returns to its own layout and the buffer is handed
    ///    to the host;
    /// 6. the buffer is let go.
    pub open spec fn recv_commands(
        &self,
        src_image: ImageHandle,
        orig_src_image_layout: ImageLayout,
        target_src_image_layout: ImageLayout,
        src_region: BlitRegion,
    ) -> Seq<Command> {
        let buffer = self.cpu_buffer.handle;
        let size = self.cpu_buffer.buffer_size;
        let shared = self.image.image;
        seq![
            Command::PipelineBarrier {
                src_stage: PipelineStage::TopOfPipe,
                dst_stage: PipelineStage::Transfer,
                buffer_barrier: None,
                image_barriers: ImageBarriers::Two(
                    ImageBarrier {
                        image: src_image,
                        old_layout: orig_src_image_layout,
                        new_layout: ImageLayout::spec_transfer_src_optimal(),
                        src_access: Access::NoAccess,
                        dst_access: Access::TransferRead,
                    },
                    ImageBarrier {
                        image: shared,
                        old_layout: self.image.image_layout,
                        new_layout: ImageLayout::spec_transfer_dst_optimal(),
                        src_access: Access::NoAccess,
                        dst_access: Access::TransferWrite,
                    },
                ),
            },
            Command::BlitImage {
                src_image,
                src_layout: ImageLayout::spec_transfer_src_optimal(),
                src_subresource: ColorSubresource::spec_base(),
                src_region,
                dst_image: shared,
                dst_layout: ImageLayout::spec_transfer_dst_optimal(),
                dst_subresource: ColorSubresource::spec_base(),
                dst_region: self.image.spec_full_region(),
                filter: Filter::Nearest,
            },
            Command::PipelineBarrier {
                src_stage: PipelineStage::Transfer,
                dst_stage: PipelineStage::Transfer,
                buffer_barrier: Some(
                    BufferBarrier {
                        buffer,
                        src_access: Access::NoAccess,
                        dst_access: Access::TransferWrite,
                        size,
                    },
                ),
                image_barriers: ImageBarriers::Two(
                    ImageBarrier {
                        image: src_image,
                        old_layout: ImageLayout::spec_transfer_src_optimal(),
                        new_layout: target_src_image_layout,
                        src_access: Access::TransferRead,
                        dst_access: Access::NoAccess,
                    },
                    ImageBarrier {
                        image: shared,
                        old_layout: ImageLayout::spec_transfer_dst_optimal(),
                        new_layout: ImageLayout::spec_transfer_src_optimal(),
                        src_access: Access::TransferWrite,
                        dst_access: Access::TransferRead,
                    },
                ),
            },
            Command::CopyImageToBuffer {
                image: shared,
                image_layout: ImageLayout::spec_transfer_src_optimal(),
                buffer,
                region: BufferImageCopy::spec_whole_image(
                    self.image.data.width,
                    self.image.data.height,
                ),
            },
            Command::PipelineBarrier {
                src_stage: PipelineStage::Transfer,
                dst_stage: PipelineStage::Host,
                buffer_barrier: Some(
                    BufferBarrier {
                        buffer,
                        src_access: Access::TransferWrite,
                        dst_access: Access::HostWrite,
                        size,
                    },
                ),
                image_barriers: ImageBarriers::One(
                    ImageBarrier {
                        image: shared,
                        old_layout: ImageLayout::spec_transfer_src_optimal(),
                        new_layout: self.image.image_layout,
                        src_access: Access::TransferRead,
                        dst_access: Access::NoAccess,
                    },
                ),
            },
            Command::PipelineBarrier {
                src_stage: PipelineStage::Host,
                dst_stage: PipelineStage::BottomOfPipe,
                buffer_barrier: Some(
                    BufferBarrier {
                        buffer,
                        src_access: Access::HostWrite,
                        dst_access: Access::NoAccess,
                        size,
                    },
                ),
                image_barriers: ImageBarriers::Neither,
            },
        ]
    }

    /// Records the transfer from `src_region` of `src_image` through the
    /// shared image into the staging buffer. The source is in
    /// `orig_src_image_layout` before the transfer and is left in
    /// `target_src_image_layout`.
    pub fn recv_image_blit_with_extents(
        &self,
        src_image: ImageHandle,
        orig_src_image_layout: ImageLayout,
        target_src_image_layout: ImageLayout,
        src_region: BlitRegion,
    ) -> (commands: Vec<Command>)
        requires
            self.wf(),
        ensures
            commands@ == self.recv_commands(
                src_image,
                orig_src_image_layout,
                target_src_image_layout,
                src_region,
            ),
    {
        let buffer = self.cpu_buffer.handle;
        let size = self.cpu_buffer.buffer_size;
        let shared = self.image.image;
        let own_layout = self.image.image_layout;
        let transfer_src = ImageLayout::transfer_src_optimal();
        let transfer_dst = ImageLayout::transfer_dst_optimal();
        let dst_region = self.image.full_region();
        let mut commands: Vec<Command> = Vec::new();

        // Source into shared image.
        commands.push(
            Command::PipelineBarrier {
                src_stage: PipelineStage::TopOfPipe,
                dst_stage: PipelineStage::Transfer,
                buffer_barrier: None,
                image_barriers: ImageBarriers::Two(
                    VkSharedImage::gen_img_mem_barrier(
                        src_image,
                        orig_src_image_layout,
                        transfer_src,
                        Access::NoAccess,
                        Access::TransferRead,
                    ),
                    VkSharedImage::gen_img_mem_barrier(
                        shared,
                        own_layout,
                        transfer_dst,
                        Access::NoAccess,
                        Access::TransferWrite,
                    ),
                ),
            },
        );
        commands.push(
            Command::BlitImage {
                src_image,
                src_layout: transfer_src,
                src_subresource: ColorSubresource::base(),
                src_region,
                dst_image: shared,
                dst_layout: transfer_dst,
                dst_subresource: ColorSubresource::base(),
                dst_region,
                filter: Filter::Nearest,
            },
        );

        // Shared image into buffer.
        commands.push(
            Command::PipelineBarrier {
                src_stage: PipelineStage::Transfer,
                dst_stage: PipelineStage::Transfer,
                buffer_barrier: Some(
                    VkCpuBuffer::gen_buffer_memory_barrier(
                        buffer,
                        Access::NoAccess,
                        Access::TransferWrite,
                        size,
                    ),
                ),
                image_barriers: ImageBarriers::Two(
                    VkSharedImage::gen_img_mem_barrier(
                        src_image,
                        transfer_src,
                        target_src_image_layout,
                        Access::TransferRead,
                        Access::NoAccess,
                    ),
                    VkSharedImage::gen_img_mem_barrier(
                        shared,
                        transfer_dst,
                        transfer_src,
                        Access::TransferWrite,
                        Access::TransferRead,
                    ),
                ),
            },
        );
        commands.push(
            Command::CopyImageToBuffer {
                image: shared,
                image_layout: transfer_src,
                buffer,
                region: BufferImageCopy::whole_image(self.image.data.width, self.image.data.height),
            },
        );

        // The host may read the buffer only after these two.
        commands.push(
            Command::PipelineBarrier {
                src_stage: PipelineStage::Transfer,
                dst_stage: PipelineStage::Host,
                buffer_barrier: Some(
                    VkCpuBuffer::gen_buffer_memory_barrier(
                        buffer,
                        Access::TransferWrite,
                        Access::HostWrite,
                        size,
                    ),
                ),
                image_barriers: ImageBarriers::One(
                    VkSharedImage::gen_img_mem_barrier(
                        shared,
                        transfer_src,
                        own_layout,
                        Access::TransferRead,
                        Access::NoAccess,
                    ),
                ),
            },
        );
        commands.push(
            Command::PipelineBarrier {
                src_stage: PipelineStage::Host,
                dst_stage: PipelineStage::BottomOfPipe,
                buffer_barrier: Some(
                    VkCpuBuffer::gen_buffer_memory_barrier(
                        buffer,
                        Access::HostWrite,
                        Access::NoAccess,
                        size,
                    ),
                ),
                image_barriers: ImageBarriers::Neither,
            },
        );

        assert(commands@ =~= self.recv_commands(
            src_image,
            orig_src_image_layout,
            target_src_image_layout,
            src_region,
        ));
        commands
    }

    /// Records the transfer from the box of `src_image` that has the shared
    /// image's own size through the shared image into the staging buffer.
    pub fn recv_image_blit(
        &self,
        src_image: ImageHandle,
        orig_src_image_layout: ImageLayout,
        target_src_image_layout: ImageLayout,
    ) -> (commands: Vec<Command>)
        requires
            self.wf(),
        ensures
            commands@ == self.recv_commands(
                src_image,
                orig_src_image_layout,
                target_src_image_layout,
                self.image.spec_full_region(),
            ),
    {
        let src_region = self.image.full_region();
        self.recv_image_blit_with_extents(
            src_image,
            orig_src_image_layout,
            target_src_image_layout,
            src_region,
        )
    }
}

} // verus!
