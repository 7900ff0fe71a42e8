//! The graphics front end: owns the video-interface driver and the
//! coprocessor driver, and sequences one frame boundary — finish
//! outstanding coprocessor work, then swap the framebuffers at the
//! vertical blank.

use vstd::prelude::*;
use crate::rsp::Rsp;
use crate::vi::{spec_swap, Vi};
use crate::{GfxError, VideoMode};

verus! {

/// Word `j` of a byte sequence read big endian.
pub open spec fn spec_be32_at(s: Seq<u8>, j: int) -> int {
    s[j] * 0x100_0000 + s[j + 1] * 0x1_0000 + s[j + 2] * 256 + s[j + 3]
}

/// Every big-endian 32-bit word starting at offset `j` equals `j`: the
/// pattern the counting diagnostic microcode leaves in data memory.
pub open spec fn spec_words_match_indices(s: Seq<u8>) -> bool {
    forall|j: int| 0 <= j && j + 4 <= s.len() ==> spec_be32_at(s, j) == j
}

/// Checks the pattern the counting diagnostic microcode leaves in data
/// memory: the word at each offset equals the offset.
pub fn dmem_words_match_indices(dmem: &Vec<u8>) -> (r: bool)
    requires
        dmem@.len() <= 0x10000,
    ensures
        r == spec_words_match_indices(dmem@),
{
    let n = dmem.len();
    let mut j: usize = 0;
    while j + 4 <= n
        invariant
            n == dmem@.len(),
            n <= 0x10000,
            j <= n,
            forall|i: int| 0 <= i && i + 4 <= n && i < j ==> spec_be32_at(dmem@, i) == i,
        decreases n - j,
    {
        let w: u32 = (dmem[j] as u32) * 0x100_0000 + (dmem[j + 1] as u32) * 0x1_0000 + (dmem[j
            + 2] as u32) * 256 + (dmem[j + 3] as u32);
        if w != j as u32 {
            proof {
                assert(spec_be32_at(dmem@, j as int) == w);
                assert(!spec_words_match_indices(dmem@));
            }
            return false;
        }
        j += 1;
    }
    true
}

/// The rendering front end: the video interface and the coprocessor.
pub struct Graphics {
    pub vi: Vi,
    pub rsp: Rsp,
}

impl Graphics {
    pub open spec fn wf(self) -> bool {
        self.vi.wf() && self.rsp.wf()
    }

    /// Initializes the video interface for the requested mode and the
    /// coprocessor. An unsupported mode is a fatal configuration error.
    pub fn new(video_mode: VideoMode) -> (r: Result<Graphics, GfxError>)
        ensures
            video_mode.spec_supported() <==> r is Ok,
            !video_mode.spec_supported() ==> r == Err::<Graphics, GfxError>(
                GfxError::UnsupportedVideoMode,
            ),
            r is Ok ==> ({
                let g = r->Ok_0;
                &&& g.wf()
                &&& g.vi@.visible_first
                &&& g.rsp@.done
                &&& forall|i: int| 0 <= i < g.vi@.buf0.len() ==> g.vi@.buf0[i] == crate::vi::CLEAR_PIXEL
                &&& forall|i: int| 0 <= i < g.vi@.buf1.len() ==> g.vi@.buf1[i] == crate::vi::CLEAR_PIXEL
            }),
    {
        match Vi::init(video_mode) {
            Ok(vi) => Ok(Graphics { vi, rsp: Rsp::new() }),
            Err(e) => Err(e),
        }
    }

    /// One frame boundary: waits for the coprocessor to finish writing
    /// the write-target buffer, then swaps the framebuffers at the
    /// vertical blank. The caller's loop performs the hardware waits; the
    /// model's state change is the swap itself.
    pub fn swap_buffers(&mut self)
        requires
            old(self).wf(),
        ensures
            final(self).wf(),
            final(self).rsp@.done,
            final(self).rsp@.dmem == old(self).rsp@.dmem,
            final(self).vi@ == spec_swap(old(self).vi@),
    {
        self.rsp.wait_for_done();
        self.vi.swap_buffers();
    }
}

} // verus!
