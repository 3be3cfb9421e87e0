//! The synchronisation rules that a list of commands has to obey, and the
//! proofs that the transfers of this library obey them.
//!
//! The rules follow a list of commands through a state: the pipeline stage
//! that the last barrier handed over to, the layout and the allowed access of
//! every image, and the allowed access of every buffer. A command that is
//! recorded in a state that does not permit it has no next state.

use vstd::prelude::*;
use crate::vulkan::vk_commands::{
    BufferBarrier, BufferImageCopy, Command, ImageBarrier, ImageBarriers,
};
use crate::vulkan::vk_cpu_shared_image::VkCpuSharedImage;
use crate::vulkan::vk_types::{
    Access, BlitRegion, BufferHandle, ImageHandle, ImageLayout, PipelineStage,
};

verus! {

/// What is known of the device between two commands.
pub struct SyncState {
    /// The stage that the last barrier handed over to.
    pub stage: PipelineStage,
    /// The layout that each image is in.
    pub layouts: Map<ImageHandle, ImageLayout>,
    /// The access that is allowed on each image.
    pub image_access: Map<ImageHandle, Access>,
    /// The access that is allowed on each buffer.
    pub buffer_access: Map<BufferHandle, Access>,
}

impl SyncState {
    /// Whether the image is in `layout` and open for `access`.
    pub open spec fn image_is(self, image: ImageHandle, layout: ImageLayout, access: Access) -> bool {
        &&& self.layouts.dom().contains(image)
        &&& self.layouts[image] == layout
        &&& self.image_access.dom().contains(image)
        &&& self.image_access[image] == access
    }

    /// Whether the buffer is open for `access`.
    pub open spec fn buffer_is(self, buffer: BufferHandle, access: Access) -> bool {
        &&& self.buffer_access.dom().contains(buffer)
        &&& self.buffer_access[buffer] == access
    }

    /// The state after a buffer barrier, if the barrier starts from the
    /// access that the buffer is open for.
    pub open spec fn after_buffer_barrier(self, barrier: BufferBarrier) -> Option<SyncState> {
        if self.buffer_is(barrier.buffer, barrier.src_access) {
            Some(
                SyncState {
                    buffer_access: self.buffer_access.insert(barrier.buffer, barrier.dst_access),
                    ..self
                },
            )
        } else {
            None
        }
    }

    /// The state after an image barrier, if the barrier starts from the
    /// layout that the image is in and from the access that it is open for.
    pub open spec fn after_image_barrier(self, barrier: ImageBarrier) -> Option<SyncState> {
        if self.image_is(barrier.image, barrier.old_layout, barrier.src_access) {
            Some(
                SyncState {
                    layouts: self.layouts.insert(barrier.image, barrier.new_layout),
                    image_access: self.image_access.insert(barrier.image, barrier.dst_access),
                    ..self
                },
            )
        } else {
            None
        }
    }

    /// The state after the image barriers of one pipeline barrier. Two
    /// barriers of one command have to name two images.
    pub open spec fn after_image_barriers(self, barriers: ImageBarriers) -> Option<SyncState> {
        match barriers {
            ImageBarriers::Neither => Some(self),
            ImageBarriers::One(a) => self.after_image_barrier(a),
            ImageBarriers::Two(a, b) => {
                if a.image == b.image {
                    None
                } else {
                    match self.after_image_barrier(a) {
                        Some(next) => next.after_image_barrier(b),
                        None => None,
                    }
                }
            },
        }
    }

    /// The state after one command, if the state permits the command:
    ///
    /// * a pipeline barrier starts at the stage that the last one handed over
    ///   to, and each of its barriers starts from what the state holds;
    /// * a copy or blit is recorded in the transfer stage, reads from a
    ///   resource that is open for transfer reads, writes to one that is open
    ///   for transfer writes, and names for each image the layout that the
    ///   image is in, which is the one for reading or the one for writing by
    ///   a transfer.
    pub open spec fn step(self, command: Command) -> Option<SyncState> {
        match command {
            Command::PipelineBarrier { src_stage, dst_stage, buffer_barrier, image_barriers } => {
                if src_stage != self.stage {
                    None
                } else {
                    let after_buffer = match buffer_barrier {
                        Some(b) => self.after_buffer_barrier(b),
                        None => Some(self),
                    };
                    match after_buffer {
                        Some(s) => match s.after_image_barriers(image_barriers) {
                            Some(t) => Some(SyncState { stage: dst_stage, ..t }),
                            None => None,
                        },
                        None => None,
                    }
                }
            },
            Command::CopyBufferToImage { buffer, image, image_layout, region } => {
                if self.stage == PipelineStage::Transfer
                    && image_layout == ImageLayout::spec_transfer_dst_optimal()
                    && self.buffer_is(buffer, Access::TransferRead)
                    && self.image_is(image, image_layout, Access::TransferWrite) {
                    Some(self)
                } else {
                    None
                }
            },
            Command::CopyImageToBuffer { image, image_layout, buffer, region } => {
                if self.stage == PipelineStage::Transfer
                    && image_layout == ImageLayout::spec_transfer_src_optimal()
                    && self.image_is(image, image_layout, Access::TransferRead)
                    && self.buffer_is(buffer, Access::TransferWrite) {
                    Some(self)
                } else {
                    None
                }
            },
            Command::BlitImage {
                src_image,
                src_layout,
                src_subresource,
                src_region,
                dst_image,
                dst_layout,
                dst_subresource,
                dst_region,
                filter,
            } => {
                if self.stage == PipelineStage::Transfer && src_image != dst_image
                    && src_layout == ImageLayout::spec_transfer_src_optimal()
                    && dst_layout == ImageLayout::spec_transfer_dst_optimal()
                    && self.image_is(src_image, src_layout, Access::TransferRead)
                    && self.image_is(dst_image, dst_layout, Access::TransferWrite) {
                    Some(self)
                } else {
                    None
                }
            },
        }
    }

    /// The state after the commands from index `from` on, if the state
    /// permits each of them in turn.
    pub open spec fn run_from(self, commands: Seq<Command>, from: nat) -> Option<SyncState>
        decreases commands.len() - from,
    {
        if from >= commands.len() {
            Some(self)
        } else {
            match self.step(commands[from as int]) {
                Some(next) => next.run_from(commands, from + 1),
                None => None,
            }
        }
    }

    /// The state after all of `commands`, if the state permits each of them
    /// in turn.
    pub open spec fn run(self, commands: Seq<Command>) -> Option<SyncState> {
        self.run_from(commands, 0)
    }

    /// A state before a submission in which the two images and the buffer of
    /// a transfer are at rest: nothing has run yet, the shared image is in
    /// its own layout, the other image in `other_layout`, and no access is
    /// open on any of the three.
    pub open spec fn at_rest(
        self,
        pair: VkCpuSharedImage,
        other: ImageHandle,
        other_layout: ImageLayout,
    ) -> bool {
        &&& self.stage == PipelineStage::TopOfPipe
        &&& pair.image.image != other
        &&& self.image_is(pair.image.image, pair.image.image_layout, Access::NoAccess)
        &&& self.image_is(other, other_layout, Access::NoAccess)
        &&& self.buffer_is(pair.cpu_buffer.handle, Access::NoAccess)
    }

    /// The state that a transfer leaves behind when it started in `self`:
    /// everything has run, the other image is in `other_layout`, and all the
    /// rest is as it was.
    pub open spec fn settled(self, other: ImageHandle, other_layout: ImageLayout) -> SyncState {
        SyncState {
            stage: PipelineStage::BottomOfPipe,
            layouts: self.layouts.insert(other, other_layout),
            ..self
        }
    }
}

/// Whether `command` writes the texel at `(x, y, z)` of `image`.
pub open spec fn writes_texel(command: Command, image: ImageHandle, x: int, y: int, z: int) -> bool {
    match command {
        Command::CopyBufferToImage { buffer, image: target, image_layout, region } => {
            &&& target == image
            &&& copy_covers(region, x, y, z)
        },
        Command::BlitImage {
            src_image,
            src_layout,
            src_subresource,
            src_region,
            dst_image,
            dst_layout,
            dst_subresource,
            dst_region,
            filter,
        } => {
            &&& dst_image == image
            &&& dst_region.covers(x, y, z)
        },
        _ => false,
    }
}

/// Whether the texel at `(x, y, z)` lies inside the box of the image that a
/// copy addresses.
pub open spec fn copy_covers(region: BufferImageCopy, x: int, y: int, z: int) -> bool {
    &&& region.image_offset.x <= x < region.image_offset.x + region.image_extent.width
    &&& region.image_offset.y <= y < region.image_offset.y + region.image_extent.height
    &&& region.image_offset.z <= z < region.image_offset.z + region.image_extent.depth
}

/// A transfer to another image obeys the synchronisation rules. Started with
/// the two images and the buffer at rest, every command is permitted where
/// it stands, and afterwards the destination is in the layout that the
/// caller asked for while the shared image is back in its own layout and no
/// access is left open.
pub proof fn lemma_send_is_synchronised(
    pair: VkCpuSharedImage,
    before: SyncState,
    dst_image: ImageHandle,
    orig_dst_image_layout: ImageLayout,
    target_dst_image_layout: ImageLayout,
    dst_region: BlitRegion,
)
    requires
        before.at_rest(pair, dst_image, orig_dst_image_layout),
    ensures
        before.run(
            pair.send_commands(
                dst_image,
                orig_dst_image_layout,
                target_dst_image_layout,
                dst_region,
            ),
        ) == Some(before.settled(dst_image, target_dst_image_layout)),
{
    let commands = pair.send_commands(
        dst_image,
        orig_dst_image_layout,
        target_dst_image_layout,
        dst_region,
    );
    let s1 = before.step(commands[0]).unwrap();
    let s2 = s1.step(commands[1]).unwrap();
    let s3 = s2.step(commands[2]).unwrap();
    let s4 = s3.step(commands[3]).unwrap();
    let s5 = s4.step(commands[4]).unwrap();
    let s6 = s5.step(commands[5]).unwrap();
    assert(before.step(commands[0]).is_some());
    assert(s1.step(commands[1]).is_some());
    assert(s2.step(commands[2]).is_some());
    assert(s3.step(commands[3]).is_some());
    assert(s4.step(commands[4]).is_some());
    assert(s5.step(commands[5]).is_some());
    let after = before.settled(dst_image, target_dst_image_layout);
    assert(s6.layouts =~= after.layouts);
    assert(s6.image_access =~= after.image_access);
    assert(s6.buffer_access =~= after.buffer_access);
    assert(s6 == after);
    reveal_with_fuel(SyncState::run_from, 7);
}

/// A transfer from another image obeys the synchronisation rules. Started
/// with the two images and the buffer at rest, every command is permitted
/// where it stands, and afterwards the source is in the layout that the
/// caller asked for while the shared image is back in its own layout and no
/// access is left open: the host reads the buffer only after the last
/// barrier has closed it.
pub proof fn lemma_recv_is_synchronised(
    pair: VkCpuSharedImage,
    before: SyncState,
    src_image: ImageHandle,
    orig_src_image_layout: ImageLayout,
    target_src_image_layout: ImageLayout,
    src_region: BlitRegion,
)
    requires
        before.at_rest(pair, src_image, orig_src_image_layout),
    ensures
        before.run(
            pair.recv_commands(
                src_image,
                orig_src_image_layout,
                target_src_image_layout,
                src_region,
            ),
        ) == Some(before.settled(src_image, target_src_image_layout)),
{
    let commands = pair.recv_commands(
        src_image,
        orig_src_image_layout,
        target_src_image_layout,
        src_region,
    );
    let s1 = before.step(commands[0]).unwrap();
    let s2 = s1.step(commands[1]).unwrap();
    let s3 = s2.step(commands[2]).unwrap();
    let s4 = s3.step(commands[3]).unwrap();
    let s5 = s4.step(commands[4]).unwrap();
    let s6 = s5.step(commands[5]).unwrap();
    assert(before.step(commands[0]).is_some());
    assert(s1.step(commands[1]).is_some());
    assert(s2.step(commands[2]).is_some());
    assert(s3.step(commands[3]).is_some());
    assert(s4.step(commands[4]).is_some());
    assert(s5.step(commands[5]).is_some());
    let after = before.settled(src_image, target_src_image_layout);
    assert(s6.layouts =~= after.layouts);
    assert(s6.image_access =~= after.image_access);
    assert(s6.buffer_access =~= after.buffer_access);
    assert(s6 == after);
    reveal_with_fuel(SyncState::run_from, 7);
}

/// A transfer to another image writes no texel of that image outside the box
/// that the caller named: whatever command of the transfer writes a texel of
/// `dst_image`, the texel lies inside `dst_region`. And the blit, the fifth
/// command, writes every texel inside it.
pub proof fn lemma_send_writes_inside_region(
    pair: VkCpuSharedImage,
    dst_image: ImageHandle,
    orig_dst_image_layout: ImageLayout,
    target_dst_image_layout: ImageLayout,
    dst_region: BlitRegion,
)
    requires
        pair.image.image != dst_image,
    ensures
        forall|i: int, x: int, y: int, z: int|
            0 <= i < pair.send_commands(
                dst_image,
                orig_dst_image_layout,
                target_dst_image_layout,
                dst_region,
            ).len() && #[trigger] writes_texel(
                pair.send_commands(
                    dst_image,
                    orig_dst_image_layout,
                    target_dst_image_layout,
                    dst_region,
                )[i],
                dst_image,
                x,
                y,
                z,
            ) ==> dst_region.covers(x, y, z),
        forall|x: int, y: int, z: int| #[trigger]
            dst_region.covers(x, y, z) ==> writes_texel(
                pair.send_commands(
                    dst_image,
                    orig_dst_image_layout,
                    target_dst_image_layout,
                    dst_region,
                )[4],
                dst_image,
                x,
                y,
                z,
            ),
{
}

/// A transfer to another image writes the shared image only inside the
/// image: every texel of it that a command writes lies in the box from
/// `(0, 0, 0)` to `(width, height, 1)`.
pub proof fn lemma_send_writes_inside_shared_image(
    pair: VkCpuSharedImage,
    dst_image: ImageHandle,
    orig_dst_image_layout: ImageLayout,
    target_dst_image_layout: ImageLayout,
    dst_region: BlitRegion,
)
    requires
        pair.wf(),
        pair.image.image != dst_image,
    ensures
        forall|i: int, x: int, y: int, z: int|
            0 <= i < pair.send_commands(
                dst_image,
                orig_dst_image_layout,
                target_dst_image_layout,
                dst_region,
            ).len() && #[trigger] writes_texel(
                pair.send_commands(
                    dst_image,
                    orig_dst_image_layout,
                    target_dst_image_layout,
                    dst_region,
                )[i],
                pair.image.image,
                x,
                y,
                z,
            ) ==> pair.image.spec_full_region().covers(x, y, z),
{
}

/// A transfer from another image writes no texel of that image.
pub proof fn lemma_recv_leaves_source_unwritten(
    pair: VkCpuSharedImage,
    src_image: ImageHandle,
    orig_src_image_layout: ImageLayout,
    target_src_image_layout: ImageLayout,
    src_region: BlitRegion,
)
    requires
        pair.image.image != src_image,
    ensures
        forall|i: int, x: int, y: int, z: int|
            0 <= i < pair.recv_commands(
                src_image,
                orig_src_image_layout,
                target_src_image_layout,
                src_region,
            ).len() ==> !#[trigger] writes_texel(
                pair.recv_commands(
                    src_image,
                    orig_src_image_layout,
                    target_src_image_layout,
                    src_region,
                )[i],
                src_image,
                x,
                y,
                z,
            ),
{
}

} // verus!
