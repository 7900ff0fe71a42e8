//! The blob-shadow draw pass: its marker component and the pipeline
//! variant it renders with.

use vstd::prelude::*;
use crate::pipeline::{
    AAlphaSrc, ASrc, BAlphaSrc, BSrc, CAlphaSrc, CSrc, ColorCombinerMode, DAlphaSrc, DSrc,
    Pipeline,
};

verus! {

/// Marker component: the entity casts a blob shadow.
#[derive(Clone, Copy, PartialEq, Eq, Structural, Debug)]
pub struct Shadow;

/// The pipeline of the shadow pass: primitive color only, a translucent
/// dark tint, blending on, depth tested but not depth written, so shadows
/// never occlude geometry.
pub fn shadow_pipeline() -> (r: Pipeline)
    ensures
        r == (Pipeline {
            color_combiner_mode: ColorCombinerMode {
                a: ASrc::Zero,
                b: BSrc::Zero,
                c: CSrc::Zero,
                d: DSrc::Primitive,
                a_alpha: AAlphaSrc::Zero,
                b_alpha: BAlphaSrc::Zero,
                c_alpha: CAlphaSrc::Zero,
                d_alpha: DAlphaSrc::ShadeAlpha,
            },
            prim_color: Some(0x1010_1060),
            blend: true,
            z_compare: true,
            z_update: false,
        }),
{
    Pipeline {
        color_combiner_mode: ColorCombinerMode::single(DSrc::Primitive),
        prim_color: Some(0x1010_1060),
        blend: true,
        z_compare: true,
        z_update: false,
    }
}

} // verus!
