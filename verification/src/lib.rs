//! Sharing one GPU image between two processes.
//!
//! The crate holds the two halves of the scheme as plain, verified logic:
//!
//! * [`ipc`]: the framing of the fixed-size command and result records, the
//!   retry discipline of the non-blocking transport, and the bookkeeping of a
//!   connection and of a listener.
//! * [`vulkan`]: the command sequences that move pixels between the shared
//!   image, its host-visible staging buffer and another image, together with
//!   the synchronisation rules those sequences obey.
//!
//! Nothing in here touches a socket or a GPU. Every function takes what the
//! operating system or the driver handed back and says what to do next.

pub mod ipc;
pub mod vulkan;
