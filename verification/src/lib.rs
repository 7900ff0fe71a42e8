//! Verified core of a fixed-function console rendering layer.
//!
//! The crate models the display pipeline of a fixed-function 3D console:
//! a video-interface driver that owns two framebuffers and alternates them
//! at each swap, a coprocessor driver that dispatches microcode tasks, an
//! immutable pipeline-state value, a command buffer that records ordered
//! mesh submissions, and a software emulation backend that replays a
//! command buffer into an offscreen render target with exact integer
//! semantics. Hardware register access itself lives outside the library;
//! the library computes the values the hardware needs and proves the
//! driver invariants.

use vstd::prelude::*;

pub mod pipeline;
pub mod color;
pub mod cmd;
pub mod emu;
pub mod vi;
pub mod rsp;
pub mod graphics;
pub mod player;
pub mod shadow;
pub mod mesh_drawable;

verus! {

/// Errors that can arise at initialization time. Per-frame rendering calls
/// have no failure path: every failure is either fatal at startup or a
/// caller-contract violation excluded by a precondition.
#[derive(Clone, Copy, PartialEq, Eq, Structural, Debug)]
pub enum GfxError {
    /// The requested display mode is not one the driver supports.
    UnsupportedVideoMode,
    /// A coprocessor task's microcode does not fit in instruction memory.
    MicrocodeTooLarge,
    /// A coprocessor task's input segment does not fit in data memory.
    InputTooLarge,
}

/// A requested display resolution.
#[derive(Clone, Copy, PartialEq, Eq, Structural, Debug)]
pub struct VideoMode {
    pub width: u32,
    pub height: u32,
}

impl VideoMode {
    /// The display modes the video-interface driver can configure.
    pub open spec fn spec_supported(self) -> bool {
        self.width == 320 && self.height == 240
    }

    pub fn new(width: u32, height: u32) -> (r: VideoMode)
        ensures
            r.width == width,
            r.height == height,
    {
        VideoMode { width, height }
    }

    pub fn width(&self) -> (r: u32)
        ensures
            r == self.width,
    {
        self.width
    }

    pub fn height(&self) -> (r: u32)
        ensures
            r == self.height,
    {
        self.height
    }

    pub fn supported(&self) -> (r: bool)
        ensures
            r == self.spec_supported(),
    {
        self.width == 320 && self.height == 240
    }
}

} // verus!
