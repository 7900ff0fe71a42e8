//! Pipeline state: an immutable value describing how subsequent primitives
//! are rasterized until the next pipeline is set. It bundles the
//! color-combination formula selectors, the depth test/write flags, the
//! blend enable and an optional primitive color override.

use vstd::prelude::*;

verus! {

/// Source selector for operand A of the color-combination formula.
#[derive(Clone, Copy, PartialEq, Eq, Structural, Debug)]
pub enum ASrc {
    Zero,
    One,
    Texel,
    Primitive,
    Shade,
}

/// Source selector for operand B of the color-combination formula.
#[derive(Clone, Copy, PartialEq, Eq, Structural, Debug)]
pub enum BSrc {
    Zero,
    One,
    Texel,
    Primitive,
    Shade,
}

/// Source selector for operand C of the color-combination formula.
#[derive(Clone, Copy, PartialEq, Eq, Structural, Debug)]
pub enum CSrc {
    Zero,
    One,
    Texel,
    Primitive,
    Shade,
}

/// Source selector for operand D of the color-combination formula.
#[derive(Clone, Copy, PartialEq, Eq, Structural, Debug)]
pub enum DSrc {
    Zero,
    One,
    Texel,
    Primitive,
    Shade,
}

/// Alpha source selector for operand A of the color-combination formula.
#[derive(Clone, Copy, PartialEq, Eq, Structural, Debug)]
pub enum AAlphaSrc {
    Zero,
    One,
    TexelAlpha,
    PrimitiveAlpha,
    ShadeAlpha,
}

/// Alpha source selector for operand B of the color-combination formula.
#[derive(Clone, Copy, PartialEq, Eq, Structural, Debug)]
pub enum BAlphaSrc {
    Zero,
    One,
    TexelAlpha,
    PrimitiveAlpha,
    ShadeAlpha,
}

/// Alpha source selector for operand C of the color-combination formula.
#[derive(Clone, Copy, PartialEq, Eq, Structural, Debug)]
pub enum CAlphaSrc {
    Zero,
    One,
    TexelAlpha,
    PrimitiveAlpha,
    ShadeAlpha,
}

/// Alpha source selector for operand D of the color-combination formula.
#[derive(Clone, Copy, PartialEq, Eq, Structural, Debug)]
pub enum DAlphaSrc {
    Zero,
    One,
    TexelAlpha,
    PrimitiveAlpha,
    ShadeAlpha,
}

/// The selectors of the four-operand color-combination formula
/// `(A - B) * C + D`, chosen independently for color and alpha.
#[derive(Clone, Copy, PartialEq, Eq, Structural, Debug)]
pub struct ColorCombinerMode {
    pub a: ASrc,
    pub b: BSrc,
    pub c: CSrc,
    pub d: DSrc,
    pub a_alpha: AAlphaSrc,
    pub b_alpha: BAlphaSrc,
    pub c_alpha: CAlphaSrc,
    pub d_alpha: DAlphaSrc,
}

impl ColorCombinerMode {
    /// Pass-through shading: the combined color and alpha are the shade
    /// color and alpha of the primitive's vertices.
    pub open spec fn spec_default() -> ColorCombinerMode {
        ColorCombinerMode {
            a: ASrc::Zero,
            b: BSrc::Zero,
            c: CSrc::Zero,
            d: DSrc::Shade,
            a_alpha: AAlphaSrc::Zero,
            b_alpha: BAlphaSrc::Zero,
            c_alpha: CAlphaSrc::Zero,
            d_alpha: DAlphaSrc::ShadeAlpha,
        }
    }

    /// Color selectors chosen freely; alpha passes the shade alpha through.
    pub fn simple(a: ASrc, b: BSrc, c: CSrc, d: DSrc) -> (r: ColorCombinerMode)
        ensures
            r == (ColorCombinerMode {
                a,
                b,
                c,
                d,
                a_alpha: AAlphaSrc::Zero,
                b_alpha: BAlphaSrc::Zero,
                c_alpha: CAlphaSrc::Zero,
                d_alpha: DAlphaSrc::ShadeAlpha,
            }),
    {
        ColorCombinerMode {
            a,
            b,
            c,
            d,
            a_alpha: AAlphaSrc::Zero,
            b_alpha: BAlphaSrc::Zero,
            c_alpha: CAlphaSrc::Zero,
            d_alpha: DAlphaSrc::ShadeAlpha,
        }
    }

    /// A formula that only forwards one source: `(0 - 0) * 0 + D`.
    pub fn single(d: DSrc) -> (r: ColorCombinerMode)
        ensures
            r == (ColorCombinerMode {
                a: ASrc::Zero,
                b: BSrc::Zero,
                c: CSrc::Zero,
                d,
                a_alpha: AAlphaSrc::Zero,
                b_alpha: BAlphaSrc::Zero,
                c_alpha: CAlphaSrc::Zero,
                d_alpha: DAlphaSrc::ShadeAlpha,
            }),
    {
        ColorCombinerMode {
            a: ASrc::Zero,
            b: BSrc::Zero,
            c: CSrc::Zero,
            d,
            a_alpha: AAlphaSrc::Zero,
            b_alpha: BAlphaSrc::Zero,
            c_alpha: CAlphaSrc::Zero,
            d_alpha: DAlphaSrc::ShadeAlpha,
        }
    }

    /// All eight selectors chosen freely.
    pub fn one(
        a: ASrc,
        b: BSrc,
        c: CSrc,
        d: DSrc,
        a_alpha: AAlphaSrc,
        b_alpha: BAlphaSrc,
        c_alpha: CAlphaSrc,
        d_alpha: DAlphaSrc,
    ) -> (r: ColorCombinerMode)
        ensures
            r == (ColorCombinerMode { a, b, c, d, a_alpha, b_alpha, c_alpha, d_alpha }),
    {
        ColorCombinerMode { a, b, c, d, a_alpha, b_alpha, c_alpha, d_alpha }
    }
}

/// Rasterizer configuration applied to every submission recorded while it
/// is the active pipeline. A value type: copied into the command buffer,
/// never mutated after submission.
#[derive(Clone, Copy, PartialEq, Eq, Structural, Debug)]
pub struct Pipeline {
    pub color_combiner_mode: ColorCombinerMode,
    pub prim_color: Option<u32>,
    pub blend: bool,
    pub z_compare: bool,
    pub z_update: bool,
}

impl Pipeline {
    /// The default pipeline: depth test and depth write enabled, no
    /// blending, pass-through shading, no primitive color override.
    pub open spec fn spec_default() -> Pipeline {
        Pipeline {
            color_combiner_mode: ColorCombinerMode::spec_default(),
            prim_color: None,
            blend: false,
            z_compare: true,
            z_update: true,
        }
    }
}

impl Default for Pipeline {
    fn default() -> (r: Pipeline)
        ensures
            r == Pipeline::spec_default(),
    {
        Pipeline {
            color_combiner_mode: ColorCombinerMode {
                a: ASrc::Zero,
                b: BSrc::Zero,
                c: CSrc::Zero,
                d: DSrc::Shade,
                a_alpha: AAlphaSrc::Zero,
                b_alpha: BAlphaSrc::Zero,
                c_alpha: CAlphaSrc::Zero,
                d_alpha: DAlphaSrc::ShadeAlpha,
            },
            prim_color: None,
            blend: false,
            z_compare: true,
            z_update: true,
        }
    }
}

} // verus!
