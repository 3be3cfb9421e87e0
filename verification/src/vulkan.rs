//! The GPU side: plain-value descriptions of images, buffers and commands.

pub mod vk_commands;
pub mod vk_cpu_buffer;
pub mod vk_cpu_shared_image;
pub mod vk_shared_image;
pub mod vk_sync;
pub mod vk_transfer;
pub mod vk_types;
