//! Exact integer color arithmetic of the rasterizer: channel extraction
//! from packed 32-bit RGBA values, the four-operand color-combination
//! formula, the blend formula, and packing into the console's 16-bit
//! framebuffer format.
//!
//! All formulas are fixed here, bit-exactly, so that the hardware path and
//! the emulation backend can be held to the same numbers:
//! - combine: `out = clamp((A - B) * C / 255 + D, 0, 255)` per channel,
//!   with the quotient truncated toward zero;
//! - blend: `out = (src * srcA + dst * (255 - srcA)) / 255` per color
//!   channel, the result alpha is the source alpha;
//! - untextured draws sample a constant white texel `0xFFFF_FFFF`;
//! - a pipeline without a primitive color override supplies white.

use vstd::prelude::*;
use crate::pipeline::{
    AAlphaSrc, ASrc, BAlphaSrc, BSrc, CAlphaSrc, CSrc, ColorCombinerMode, DAlphaSrc, DSrc,
    Pipeline,
};

verus! {

/// Red channel of a packed RGBA value (bits 31..24).
pub open spec fn chan_r(c: int) -> int {
    c / 0x100_0000
}

/// Green channel of a packed RGBA value (bits 23..16).
pub open spec fn chan_g(c: int) -> int {
    (c / 0x1_0000) % 256
}

/// Blue channel of a packed RGBA value (bits 15..8).
pub open spec fn chan_b(c: int) -> int {
    (c / 256) % 256
}

/// Alpha channel of a packed RGBA value (bits 7..0).
pub open spec fn chan_a(c: int) -> int {
    c % 256
}

/// Packs four 0..255 channels into one RGBA value.
pub open spec fn pack_rgba(r: int, g: int, b: int, a: int) -> int {
    r * 0x100_0000 + g * 0x1_0000 + b * 256 + a
}

pub open spec fn clamp255(x: int) -> int {
    if x < 0 {
        0
    } else if x > 255 {
        255
    } else {
        x
    }
}

/// One channel of the combination formula `(A - B) * C / 255 + D`,
/// clamped to 0..255. The quotient is truncated toward zero.
pub open spec fn spec_combine_channel(a: int, b: int, c: int, d: int) -> int {
    if a >= b {
        clamp255((a - b) * c / 255 + d)
    } else {
        clamp255(d - (b - a) * c / 255)
    }
}

/// Value of a color-operand selector, given the flat shade color channel,
/// the primitive color channel and the (constant white) texel channel.
pub open spec fn spec_color_src(s: ASrc, shade: int, prim: int) -> int {
    match s {
        ASrc::Zero => 0,
        ASrc::One => 255,
        ASrc::Texel => 255,
        ASrc::Primitive => prim,
        ASrc::Shade => shade,
    }
}

pub open spec fn spec_color_src_b(s: BSrc, shade: int, prim: int) -> int {
    match s {
        BSrc::Zero => 0,
        BSrc::One => 255,
        BSrc::Texel => 255,
        BSrc::Primitive => prim,
        BSrc::Shade => shade,
    }
}

pub open spec fn spec_color_src_c(s: CSrc, shade: int, prim: int) -> int {
    match s {
        CSrc::Zero => 0,
        CSrc::One => 255,
        CSrc::Texel => 255,
        CSrc::Primitive => prim,
        CSrc::Shade => shade,
    }
}

pub open spec fn spec_color_src_d(s: DSrc, shade: int, prim: int) -> int {
    match s {
        DSrc::Zero => 0,
        DSrc::One => 255,
        DSrc::Texel => 255,
        DSrc::Primitive => prim,
        DSrc::Shade => shade,
    }
}

pub open spec fn spec_alpha_src_a(s: AAlphaSrc, shade_a: int, prim_a: int) -> int {
    match s {
        AAlphaSrc::Zero => 0,
        AAlphaSrc::One => 255,
        AAlphaSrc::TexelAlpha => 255,
        AAlphaSrc::PrimitiveAlpha => prim_a,
        AAlphaSrc::ShadeAlpha => shade_a,
    }
}

pub open spec fn spec_alpha_src_b(s: BAlphaSrc, shade_a: int, prim_a: int) -> int {
    match s {
        BAlphaSrc::Zero => 0,
        BAlphaSrc::One => 255,
        BAlphaSrc::TexelAlpha => 255,
        BAlphaSrc::PrimitiveAlpha => prim_a,
        BAlphaSrc::ShadeAlpha => shade_a,
    }
}

pub open spec fn spec_alpha_src_c(s: CAlphaSrc, shade_a: int, prim_a: int) -> int {
    match s {
        CAlphaSrc::Zero => 0,
        CAlphaSrc::One => 255,
        CAlphaSrc::PrimitiveAlpha => prim_a,
        CAlphaSrc::TexelAlpha => 255,
        CAlphaSrc::ShadeAlpha => shade_a,
    }
}

pub open spec fn spec_alpha_src_d(s: DAlphaSrc, shade_a: int, prim_a: int) -> int {
    match s {
        DAlphaSrc::Zero => 0,
        DAlphaSrc::One => 255,
        DAlphaSrc::TexelAlpha => 255,
        DAlphaSrc::PrimitiveAlpha => prim_a,
        DAlphaSrc::ShadeAlpha => shade_a,
    }
}

/// One channel index applied through the whole combination formula.
pub open spec fn spec_combined_chan(
    m: ColorCombinerMode,
    shade_c: int,
    prim_c: int,
) -> int {
    spec_combine_channel(
        spec_color_src(m.a, shade_c, prim_c),
        spec_color_src_b(m.b, shade_c, prim_c),
        spec_color_src_c(m.c, shade_c, prim_c),
        spec_color_src_d(m.d, shade_c, prim_c),
    )
}

pub open spec fn spec_combined_alpha(
    m: ColorCombinerMode,
    shade_a: int,
    prim_a: int,
) -> int {
    spec_combine_channel(
        spec_alpha_src_a(m.a_alpha, shade_a, prim_a),
        spec_alpha_src_b(m.b_alpha, shade_a, prim_a),
        spec_alpha_src_c(m.c_alpha, shade_a, prim_a),
        spec_alpha_src_d(m.d_alpha, shade_a, prim_a),
    )
}

/// The combined RGBA color of a primitive: the combination formula applied
/// to each color channel and to alpha, with the flat shade color `shade`
/// and the primitive color `prim`.
pub open spec fn spec_combined(m: ColorCombinerMode, shade: int, prim: int) -> int {
    pack_rgba(
        spec_combined_chan(m, chan_r(shade), chan_r(prim)),
        spec_combined_chan(m, chan_g(shade), chan_g(prim)),
        spec_combined_chan(m, chan_b(shade), chan_b(prim)),
        spec_combined_alpha(m, chan_a(shade), chan_a(prim)),
    )
}

/// The primitive color a pipeline supplies to the combiner: its override
/// if set, else white.
pub open spec fn spec_prim_color(p: Pipeline) -> int {
    match p.prim_color {
        Some(c) => c as int,
        None => 0xFFFF_FFFF,
    }
}

/// One color channel of the blend formula.
pub open spec fn spec_blend_channel(s: int, d: int, a: int) -> int {
    (s * a + d * (255 - a)) / 255
}

/// Source-over blend of `src` onto `dst`, weighted by the source alpha.
/// The result alpha is the source alpha.
pub open spec fn spec_blended(src: int, dst: int) -> int {
    pack_rgba(
        spec_blend_channel(chan_r(src), chan_r(dst), chan_a(src)),
        spec_blend_channel(chan_g(src), chan_g(dst), chan_a(src)),
        spec_blend_channel(chan_b(src), chan_b(dst), chan_a(src)),
        chan_a(src),
    )
}

/// The console's packed 16-bit framebuffer pixel for an RGBA value: five
/// bits per color channel, one alpha bit (set when alpha >= 128).
pub open spec fn spec_packed_5551(c: int) -> int {
    (chan_r(c) / 8) * 2048 + (chan_g(c) / 8) * 64 + (chan_b(c) / 8) * 2 + chan_a(c) / 128
}

fn channels_of(c: u32) -> (r: (u32, u32, u32, u32))
    ensures
        r.0 == chan_r(c as int),
        r.1 == chan_g(c as int),
        r.2 == chan_b(c as int),
        r.3 == chan_a(c as int),
        r.0 < 256 && r.1 < 256 && r.2 < 256 && r.3 < 256,
{
    (c / 0x100_0000, (c / 0x1_0000) % 256, (c / 256) % 256, c % 256)
}

fn combine_channel(a: u32, b: u32, c: u32, d: u32) -> (r: u32)
    requires
        a < 256,
        b < 256,
        c < 256,
        d < 256,
    ensures
        r == spec_combine_channel(a as int, b as int, c as int, d as int),
        r < 256,
{
    if a >= b {
        proof {
            assert((a - b) * c <= 255 * 255) by (nonlinear_arith)
                requires
                    b <= a < 256,
                    c < 256,
            ;
        }
        let t: u32 = (a - b) * c / 255 + d;
        if t > 255 {
            255
        } else {
            t
        }
    } else {
        proof {
            assert((b - a) * c <= 255 * 255) by (nonlinear_arith)
                requires
                    a < b < 256,
                    c < 256,
            ;
        }
        let m: u32 = (b - a) * c / 255;
        if d >= m {
            d - m
        } else {
            0
        }
    }
}

fn color_src(s: ASrc, shade: u32, prim: u32) -> (r: u32)
    requires
        shade < 256,
        prim < 256,
    ensures
        r == spec_color_src(s, shade as int, prim as int),
        r < 256,
{
    match s {
        ASrc::Zero => 0,
        ASrc::One => 255,
        ASrc::Texel => 255,
        ASrc::Primitive => prim,
        ASrc::Shade => shade,
    }
}

fn color_src_b(s: BSrc, shade: u32, prim: u32) -> (r: u32)
    requires
        shade < 256,
        prim < 256,
    ensures
        r == spec_color_src_b(s, shade as int, prim as int),
        r < 256,
{
    match s {
        BSrc::Zero => 0,
        BSrc::One => 255,
        BSrc::Texel => 255,
        BSrc::Primitive => prim,
        BSrc::Shade => shade,
    }
}

fn color_src_c(s: CSrc, shade: u32, prim: u32) -> (r: u32)
    requires
        shade < 256,
        prim < 256,
    ensures
        r == spec_color_src_c(s, shade as int, prim as int),
        r < 256,
{
    match s {
        CSrc::Zero => 0,
        CSrc::One => 255,
        CSrc::Texel => 255,
        CSrc::Primitive => prim,
        CSrc::Shade => shade,
    }
}

fn color_src_d(s: DSrc, shade: u32, prim: u32) -> (r: u32)
    requires
        shade < 256,
        prim < 256,
    ensures
        r == spec_color_src_d(s, shade as int, prim as int),
        r < 256,
{
    match s {
        DSrc::Zero => 0,
        DSrc::One => 255,
        DSrc::Texel => 255,
        DSrc::Primitive => prim,
        DSrc::Shade => shade,
    }
}

fn alpha_src_a(s: AAlphaSrc, shade_a: u32, prim_a: u32) -> (r: u32)
    requires
        shade_a < 256,
        prim_a < 256,
    ensures
        r == spec_alpha_src_a(s, shade_a as int, prim_a as int),
        r < 256,
{
    match s {
        AAlphaSrc::Zero => 0,
        AAlphaSrc::One => 255,
        AAlphaSrc::TexelAlpha => 255,
        AAlphaSrc::PrimitiveAlpha => prim_a,
        AAlphaSrc::ShadeAlpha => shade_a,
    }
}

fn alpha_src_b(s: BAlphaSrc, shade_a: u32, prim_a: u32) -> (r: u32)
    requires
        shade_a < 256,
        prim_a < 256,
    ensures
        r == spec_alpha_src_b(s, shade_a as int, prim_a as int),
        r < 256,
{
    match s {
        BAlphaSrc::Zero => 0,
        BAlphaSrc::One => 255,
        BAlphaSrc::TexelAlpha => 255,
        BAlphaSrc::PrimitiveAlpha => prim_a,
        BAlphaSrc::ShadeAlpha => shade_a,
    }
}

fn alpha_src_c(s: CAlphaSrc, shade_a: u32, prim_a: u32) -> (r: u32)
    requires
        shade_a < 256,
        prim_a < 256,
    ensures
        r == spec_alpha_src_c(s, shade_a as int, prim_a as int),
        r < 256,
{
    match s {
        CAlphaSrc::Zero => 0,
        CAlphaSrc::One => 255,
        CAlphaSrc::TexelAlpha => 255,
        CAlphaSrc::PrimitiveAlpha => prim_a,
        CAlphaSrc::ShadeAlpha => shade_a,
    }
}

fn alpha_src_d(s: DAlphaSrc, shade_a: u32, prim_a: u32) -> (r: u32)
    requires
        shade_a < 256,
        prim_a < 256,
    ensures
        r == spec_alpha_src_d(s, shade_a as int, prim_a as int),
        r < 256,
{
    match s {
        DAlphaSrc::Zero => 0,
        DAlphaSrc::One => 255,
        DAlphaSrc::TexelAlpha => 255,
        DAlphaSrc::PrimitiveAlpha => prim_a,
        DAlphaSrc::ShadeAlpha => shade_a,
    }
}

fn pack_channels(r: u32, g: u32, b: u32, a: u32) -> (c: u32)
    requires
        r < 256,
        g < 256,
        b < 256,
        a < 256,
    ensures
        c == pack_rgba(r as int, g as int, b as int, a as int),
{
    r * 0x100_0000 + g * 0x1_0000 + b * 256 + a
}

/// The combined RGBA color for a primitive drawn with combiner mode `m`,
/// flat shade color `shade` and primitive color `prim`.
pub fn combine(m: &ColorCombinerMode, shade: u32, prim: u32) -> (r: u32)
    ensures
        r == spec_combined(*m, shade as int, prim as int),
{
    let (sr, sg, sb, sa) = channels_of(shade);
    let (pr, pg, pb, pa) = channels_of(prim);
    let out_r = combine_channel(
        color_src(m.a, sr, pr),
        color_src_b(m.b, sr, pr),
        color_src_c(m.c, sr, pr),
        color_src_d(m.d, sr, pr),
    );
    let out_g = combine_channel(
        color_src(m.a, sg, pg),
        color_src_b(m.b, sg, pg),
        color_src_c(m.c, sg, pg),
        color_src_d(m.d, sg, pg),
    );
    let out_b = combine_channel(
        color_src(m.a, sb, pb),
        color_src_b(m.b, sb, pb),
        color_src_c(m.c, sb, pb),
        color_src_d(m.d, sb, pb),
    );
    let out_a = combine_channel(
        alpha_src_a(m.a_alpha, sa, pa),
        alpha_src_b(m.b_alpha, sa, pa),
        alpha_src_c(m.c_alpha, sa, pa),
        alpha_src_d(m.d_alpha, sa, pa),
    );
    pack_channels(out_r, out_g, out_b, out_a)
}

/// Source-over blend of `src` onto the framebuffer value `dst`.
pub fn blend_pixel(src: u32, dst: u32) -> (r: u32)
    ensures
        r == spec_blended(src as int, dst as int),
{
    let (sr, sg, sb, sa) = channels_of(src);
    let (dr, dg, db, _da) = channels_of(dst);
    proof {
        assert(sr * sa + dr * (255 - sa) <= 255 * 255) by (nonlinear_arith)
            requires
                sr < 256 && dr < 256 && sa < 256,
        ;
        assert(sg * sa + dg * (255 - sa) <= 255 * 255) by (nonlinear_arith)
            requires
                sg < 256 && dg < 256 && sa < 256,
        ;
        assert(sb * sa + db * (255 - sa) <= 255 * 255) by (nonlinear_arith)
            requires
                sb < 256 && db < 256 && sa < 256,
        ;
    }
    let out_r = (sr * sa + dr * (255 - sa)) / 255;
    let out_g = (sg * sa + dg * (255 - sa)) / 255;
    let out_b = (sb * sa + db * (255 - sa)) / 255;
    pack_channels(out_r, out_g, out_b, sa)
}

/// The console's packed 16-bit framebuffer pixel for an RGBA value.
pub fn pack_5551(c: u32) -> (r: u16)
    ensures
        r == spec_packed_5551(c as int),
{
    let (cr, cg, cb, ca) = channels_of(c);
    ((cr / 8) * 2048 + (cg / 8) * 64 + (cb / 8) * 2 + ca / 128) as u16
}

} // verus!
