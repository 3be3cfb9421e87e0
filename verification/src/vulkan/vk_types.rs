//! Plain values that stand for the driver's handles, layouts and flags.
//!
//! A handle or a layout is whatever number the driver uses for it. The
//! library never interprets a handle and only ever compares layouts.

use vstd::prelude::*;

verus! {

/// A GPU image, named by the driver's raw handle.
#[derive(Clone, Copy, Debug, PartialEq, Eq, Structural)]
pub struct ImageHandle {
    pub raw: u64,
}

/// A GPU buffer, named by the driver's raw handle.
#[derive(Clone, Copy, Debug, PartialEq, Eq, Structural)]
pub struct BufferHandle {
    pub raw: u64,
}

/// A pixel format, named by the driver's number for it.
#[derive(Clone, Copy, Debug, PartialEq, Eq, Structural)]
pub struct Format {
    pub raw: i32,
}

/// A failure reported by the driver, carried around verbatim.
#[derive(Clone, Copy, Debug, PartialEq, Eq, Structural)]
pub struct GpuError {
    pub code: i32,
}

/// The access-pattern state of an image, named by the driver's number for it.
#[derive(Clone, Copy, Debug, PartialEq, Eq, Structural)]
pub struct ImageLayout {
    pub raw: i32,
}

/// The kinds of memory access that the transfer sequences name in a barrier.
#[derive(Clone, Copy, Debug, PartialEq, Eq, Structural)]
pub enum Access {
    /// No access at all.
    NoAccess,
    /// A read by the host.
    HostRead,
    /// A write by the host.
    HostWrite,
    /// A read by a copy or blit.
    TransferRead,
    /// A write by a copy or blit.
    TransferWrite,
}

/// The pipeline stages that the transfer sequences name in a barrier.
#[derive(Clone, Copy, Debug, PartialEq, Eq, Structural)]
pub enum PipelineStage {
    /// Before any command of the submission.
    TopOfPipe,
    /// Reads and writes made by the host.
    Host,
    /// Copies and blits.
    Transfer,
    /// After every command of the submission.
    BottomOfPipe,
}

/// A corner of a box inside an image.
#[derive(Clone, Copy, Debug, PartialEq, Eq, Structural)]
pub struct Offset3D {
    pub x: i32,
    pub y: i32,
    pub z: i32,
}

/// The size of a box inside an image.
#[derive(Clone, Copy, Debug, PartialEq, Eq, Structural)]
pub struct Extent3D {
    pub width: u32,
    pub height: u32,
    pub depth: u32,
}

/// A box inside an image, given by two opposite corners. A blit that reads or
/// writes the box runs from `start` towards `end`, so `end` may lie before
/// `start` on an axis: the picture is then mirrored on that axis.
#[derive(Clone, Copy, Debug, PartialEq, Eq, Structural)]
pub struct BlitRegion {
    pub start: Offset3D,
    pub end: Offset3D,
}

/// `ash::vk::ImageLayout::TRANSFER_SRC_OPTIMAL.as_raw()`: the number that the
/// bindings give to the layout for reading by a transfer. The contract claims
/// that this number is 6, as the bindings' table of layouts has it.
#[verifier::external_body]
fn transfer_src_optimal_raw() -> (raw: i32)
    ensures
        raw == 6,
{
    ash::vk::ImageLayout::TRANSFER_SRC_OPTIMAL.as_raw()
}

/// `ash::vk::ImageLayout::TRANSFER_DST_OPTIMAL.as_raw()`: the number that the
/// bindings give to the layout for writing by a transfer. The contract claims
/// that this number is 7, as the bindings' table of layouts has it.
#[verifier::external_body]
fn transfer_dst_optimal_raw() -> (raw: i32)
    ensures
        raw == 7,
{
    ash::vk::ImageLayout::TRANSFER_DST_OPTIMAL.as_raw()
}

impl ImageLayout {
    /// The layout in which an image can be read by a copy or blit.
    pub open spec fn spec_transfer_src_optimal() -> ImageLayout {
        ImageLayout { raw: 6 }
    }

    /// The layout in which an image can be written by a copy or blit.
    pub open spec fn spec_transfer_dst_optimal() -> ImageLayout {
        ImageLayout { raw: 7 }
    }

    /// The layout in which an image can be read by a copy or blit.
    #[verifier::when_used_as_spec(spec_transfer_src_optimal)]
    pub fn transfer_src_optimal() -> (layout: ImageLayout)
        ensures
            layout == Self::spec_transfer_src_optimal(),
    {
        ImageLayout { raw: transfer_src_optimal_raw() }
    }

    /// The layout in which an image can be written by a copy or blit.
    #[verifier::when_used_as_spec(spec_transfer_dst_optimal)]
    pub fn transfer_dst_optimal() -> (layout: ImageLayout)
        ensures
            layout == Self::spec_transfer_dst_optimal(),
    {
        ImageLayout { raw: transfer_dst_optimal_raw() }
    }
}

impl BlitRegion {
    /// Whether `p` lies between the corners `a` and `b` on one axis,
    /// whichever of the two comes first. The corner that comes first is in,
    /// the other is out.
    pub open spec fn axis_covers(a: int, b: int, p: int) -> bool {
        (a <= p < b) || (b <= p < a)
    }

    /// Whether the texel at `(x, y, z)` lies inside the box.
    pub open spec fn covers(self, x: int, y: int, z: int) -> bool {
        &&& Self::axis_covers(self.start.x as int, self.end.x as int, x)
        &&& Self::axis_covers(self.start.y as int, self.end.y as int, y)
        &&& Self::axis_covers(self.start.z as int, self.end.z as int, z)
    }

    /// Whether the texel at `(x, y, z)` lies inside the box.
    pub fn contains(&self, x: i32, y: i32, z: i32) -> (inside: bool)
        ensures
            inside == self.covers(x as int, y as int, z as int),
    {
        let in_x: bool = (self.start.x <= x && x < self.end.x) || (self.end.x <= x && x
            < self.start.x);
        let in_y: bool = (self.start.y <= y && y < self.end.y) || (self.end.y <= y && y
            < self.start.y);
        let in_z: bool = (self.start.z <= z && z < self.end.z) || (self.end.z <= z && z
            < self.start.z);
        in_x && in_y && in_z
    }
}

} // verus!
