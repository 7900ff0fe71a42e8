//! The video-interface driver model: display timing configuration, the
//! two framebuffers, and the buffer-swap operation.
//!
//! The driver owns both framebuffers. Exactly one is visible (read by the
//! display) and the other is the write target; they alternate strictly at
//! each swap, and rendering only ever writes the write target. The
//! hardware register accesses themselves (volatile writes of the timing
//! values, the scan-position poll, the frame-pointer write) live outside
//! the library; this module computes the values and proves the
//! alternation invariant.

use vstd::prelude::*;
use crate::{GfxError, VideoMode};

verus! {

pub const WIDTH: i32 = 320;

pub const HEIGHT: i32 = 240;

pub const FRAME_BUFFER_SIZE: i32 = WIDTH * HEIGHT * 4;

/// Framebuffers are cleared to this packed 16-bit background value.
pub const CLEAR_PIXEL: u16 = 0x0001;

/// The display is inside the vertical blank interval while the current
/// halfline is at or below this threshold.
pub const VBLANK_HALFLINE: u32 = 10;

/// The values the driver writes to the display timing registers for a
/// supported mode.
#[derive(Clone, Copy, PartialEq, Eq, Structural, Debug)]
pub struct ViRegs {
    pub status: u32,
    pub h_width: u32,
    pub v_intr: u32,
    pub timing: u32,
    pub v_sync: u32,
    pub h_sync: u32,
    pub h_sync_leap: u32,
    pub h_video: u32,
    pub v_video: u32,
    pub v_burst: u32,
    pub x_scale: u32,
    pub y_scale: u32,
}

/// The display timing register values for a supported mode. The caller
/// performs the actual register writes, in this order, at initialization.
pub fn register_values(mode: VideoMode) -> (r: ViRegs)
    requires
        mode.spec_supported(),
    ensures
        r == (ViRegs {
            status: 0x0000_320E,
            h_width: mode.width,
            v_intr: 2,
            timing: 0x03E5_2239,
            v_sync: 0x0000_020D,
            h_sync: 0x0000_0C15,
            h_sync_leap: 0x0C15_0C15,
            h_video: 0x006C_02EC,
            v_video: 0x0025_01FF,
            v_burst: 0x000E_0204,
            x_scale: 0x0000_0200,
            y_scale: 0x0000_0400,
        }),
{
    ViRegs {
        status: 0x0000_320E,
        h_width: mode.width(),
        v_intr: 2,
        timing: 0x03E5_2239,
        v_sync: 0x0000_020D,
        h_sync: 0x0000_0C15,
        h_sync_leap: 0x0C15_0C15,
        h_video: 0x006C_02EC,
        v_video: 0x0025_01FF,
        v_burst: 0x000E_0204,
        x_scale: 0x0000_0200,
        y_scale: 0x0000_0400,
    }
}

/// Whether a scan position read from the hardware is inside the vertical
/// blank. The caller's polling loop blocks until this holds; there is no
/// timeout by design.
pub fn is_vblank(current_halfline: u32) -> (r: bool)
    ensures
        r == (current_halfline <= VBLANK_HALFLINE),
{
    current_halfline <= VBLANK_HALFLINE
}

/// The mathematical value of the driver: which buffer is visible and the
/// contents of both framebuffers.
#[verifier::ext_equal]
pub struct ViView {
    pub visible_first: bool,
    pub buf0: Seq<u16>,
    pub buf1: Seq<u16>,
    pub width: int,
    pub height: int,
}

/// The index of the buffer rendering may write into: always the one that
/// is not visible.
pub open spec fn spec_write_target(v: ViView) -> int {
    if v.visible_first {
        1
    } else {
        0
    }
}

/// A swap publishes the write target and makes the previously visible
/// buffer the new write target; the pixel contents are untouched.
pub open spec fn spec_swap(v: ViView) -> ViView {
    ViView { visible_first: !v.visible_first, ..v }
}

/// Strict alternation of the framebuffers: every swap changes the write
/// target, and two swaps restore the driver state, so the alternation has
/// period two; after any number of swaps the write target differs from the
/// write target one swap earlier.
pub proof fn lemma_swap_alternates(v: ViView)
    ensures
        spec_write_target(spec_swap(v)) != spec_write_target(v),
        spec_swap(spec_swap(v)) == v,
{
    assert(spec_swap(spec_swap(v)) =~= v);
}

/// The driver state after `n` swaps.
pub open spec fn spec_swap_n(v: ViView, n: nat) -> ViView
    decreases n,
{
    if n == 0 {
        v
    } else {
        spec_swap(spec_swap_n(v, (n - 1) as nat))
    }
}

/// After `n` swaps, for any `n >= 1`, the write-target buffer differs
/// from the write target after `n - 1` swaps: the buffers alternate
/// strictly, whatever the starting state.
pub proof fn lemma_swap_n_alternates(v: ViView, n: nat)
    requires
        n >= 1,
    ensures
        spec_write_target(spec_swap_n(v, n)) != spec_write_target(spec_swap_n(v, (n - 1) as nat)),
{
    lemma_swap_alternates(spec_swap_n(v, (n - 1) as nat));
}

/// The video-interface driver: display configuration and the two
/// framebuffers it exclusively owns.
pub struct Vi {
    visible_first: bool,
    buf0: Vec<u16>,
    buf1: Vec<u16>,
    width: u32,
    height: u32,
}

impl View for Vi {
    type V = ViView;

    closed spec fn view(&self) -> ViView {
        ViView {
            visible_first: self.visible_first,
            buf0: self.buf0@,
            buf1: self.buf1@,
            width: self.width as int,
            height: self.height as int,
        }
    }
}

impl Vi {
    /// Both framebuffers cover the configured mode exactly.
    pub open spec fn wf(self) -> bool {
        &&& self@.width == 320
        &&& self@.height == 240
        &&& self@.buf0.len() == self@.width * self@.height
        &&& self@.buf1.len() == self@.width * self@.height
    }

    /// Configures the driver for the requested mode: both framebuffers
    /// allocated and cleared to the background value, the first buffer
    /// visible. An unsupported mode is a fatal configuration error.
    pub fn init(mode: VideoMode) -> (r: Result<Vi, GfxError>)
        ensures
            mode.spec_supported() <==> r is Ok,
            !mode.spec_supported() ==> r == Err::<Vi, GfxError>(GfxError::UnsupportedVideoMode),
            r is Ok ==> ({
                let v = r->Ok_0;
                &&& v.wf()
                &&& v@.visible_first == true
                &&& v@.width == mode.width
                &&& v@.height == mode.height
                &&& forall|i: int| 0 <= i < v@.buf0.len() ==> v@.buf0[i] == CLEAR_PIXEL
                &&& forall|i: int| 0 <= i < v@.buf1.len() ==> v@.buf1[i] == CLEAR_PIXEL
            }),
    {
        if !mode.supported() {
            return Err(GfxError::UnsupportedVideoMode);
        }
        let len: usize = 320 * 240;
        let mut buf0: Vec<u16> = Vec::new();
        let mut buf1: Vec<u16> = Vec::new();
        let mut i: usize = 0;
        while i < len
            invariant
                i <= len,
                buf0@.len() == i,
                buf1@.len() == i,
                forall|j: int| 0 <= j < i ==> buf0@[j] == CLEAR_PIXEL,
                forall|j: int| 0 <= j < i ==> buf1@[j] == CLEAR_PIXEL,
            decreases len - i,
        {
            buf0.push(CLEAR_PIXEL);
            buf1.push(CLEAR_PIXEL);
            i += 1;
        }
        Ok(Vi { visible_first: true, buf0, buf1, width: mode.width(), height: mode.height() })
    }

    /// The index of the buffer that rendering may write into next: never
    /// the visible one.
    pub fn next_buffer(&self) -> (r: usize)
        ensures
            r == spec_write_target(self@),
    {
        if self.visible_first {
            1
        } else {
            0
        }
    }

    /// Publishes the written framebuffer as visible and designates the
    /// previously visible buffer as the new write target. To avoid
    /// tearing, the caller swaps only inside the vertical blank.
    pub fn swap_buffers(&mut self)
        ensures
            final(self)@ == spec_swap(old(self)@),
            old(self).wf() ==> final(self).wf(),
    {
        self.visible_first = !self.visible_first;
        proof {
            assert(self@ =~= spec_swap(old(self)@));
        }
    }

    /// Copies one frame of packed pixels into the write-target buffer.
    /// The visible buffer is untouched: the driver never writes the
    /// buffer the display is reading.
    pub fn write_frame(&mut self, pixels: &Vec<u16>)
        requires
            old(self).wf(),
            pixels@.len() == old(self)@.width * old(self)@.height,
        ensures
            final(self).wf(),
            final(self)@.visible_first == old(self)@.visible_first,
            old(self)@.visible_first ==> final(self)@.buf1 == pixels@ && final(self)@.buf0
                == old(self)@.buf0,
            !old(self)@.visible_first ==> final(self)@.buf0 == pixels@ && final(self)@.buf1
                == old(self)@.buf1,
    {
        let copied = crate::cmd::copy_vec(pixels);
        if self.visible_first {
            self.buf1 = copied;
        } else {
            self.buf0 = copied;
        }
    }

    /// The contents of the buffer the display is reading.
    pub fn visible_pixels(&self) -> (r: &Vec<u16>)
        ensures
            self@.visible_first ==> r@ == self@.buf0,
            !self@.visible_first ==> r@ == self@.buf1,
    {
        if self.visible_first {
            &self.buf0
        } else {
            &self.buf1
        }
    }
}

} // verus!
