//! A host-visible buffer that the GPU can read and write.

use vstd::prelude::*;
use crate::vulkan::vk_commands::BufferBarrier;
use crate::vulkan::vk_types::{Access, BufferHandle};

verus! {

/// A staging buffer: the driver's handle and the size in bytes.
#[derive(Debug, PartialEq, Eq)]
pub struct VkCpuBuffer {
    pub handle: BufferHandle,
    pub buffer_size: u64,
}

impl VkCpuBuffer {
    /// Describes a buffer of `buffer_size` bytes that the driver has created.
    pub fn new(handle: BufferHandle, buffer_size: u64) -> (buffer: VkCpuBuffer)
        ensures
            buffer == (VkCpuBuffer { handle, buffer_size }),
    {
        VkCpuBuffer { handle, buffer_size }
    }

    /// The barrier that takes the first `size` bytes of `buffer` from one
    /// access to another.
    pub fn gen_buffer_memory_barrier(
        buffer: BufferHandle,
        src_access: Access,
        dst_access: Access,
        size: u64,
    ) -> (barrier: BufferBarrier)
        ensures
            barrier == (BufferBarrier { buffer, src_access, dst_access, size }),
    {
        BufferBarrier { buffer, src_access, dst_access, size }
    }
}

} // verus!
