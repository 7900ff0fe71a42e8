//! The mesh draw pass: the pipeline variants it renders with. The
//! floating-point model data and transforms of the pass live with the
//! caller; the variant selection below is the rendering-core decision.

use vstd::prelude::*;
use crate::pipeline::{
    AAlphaSrc, ASrc, BAlphaSrc, BSrc, CAlphaSrc, CSrc, ColorCombinerMode, DAlphaSrc, DSrc,
    Pipeline,
};

verus! {

/// The pipeline of the mesh pass. Undamaged entities render with the
/// standard variant: depth tested and written, shaded. An entity damaged
/// this frame renders with the flash variant: the texel scaled by one
/// plus the primitive tint `0xA0A0A0FF`.
pub fn mesh_pipeline(damaged: bool) -> (r: Pipeline)
    ensures
        !damaged ==> r == (Pipeline {
            color_combiner_mode: ColorCombinerMode {
                a: ASrc::Zero,
                b: BSrc::Zero,
                c: CSrc::Zero,
                d: DSrc::Shade,
                a_alpha: AAlphaSrc::Zero,
                b_alpha: BAlphaSrc::Zero,
                c_alpha: CAlphaSrc::Zero,
                d_alpha: DAlphaSrc::ShadeAlpha,
            },
            prim_color: None,
            blend: false,
            z_compare: true,
            z_update: true,
        }),
        damaged ==> r == (Pipeline {
            color_combiner_mode: ColorCombinerMode {
                a: ASrc::One,
                b: BSrc::Zero,
                c: CSrc::Texel,
                d: DSrc::Primitive,
                a_alpha: AAlphaSrc::Zero,
                b_alpha: BAlphaSrc::Zero,
                c_alpha: CAlphaSrc::Zero,
                d_alpha: DAlphaSrc::TexelAlpha,
            },
            prim_color: Some(0xA0A0_A0FF),
            blend: false,
            z_compare: true,
            z_update: true,
        }),
{
    if damaged {
        Pipeline {
            color_combiner_mode: ColorCombinerMode::one(
                ASrc::One,
                BSrc::Zero,
                CSrc::Texel,
                DSrc::Primitive,
                AAlphaSrc::Zero,
                BAlphaSrc::Zero,
                CAlphaSrc::Zero,
                DAlphaSrc::TexelAlpha,
            ),
            prim_color: Some(0xA0A0_A0FF),
            blend: false,
            z_compare: true,
            z_update: true,
        }
    } else {
        Pipeline {
            color_combiner_mode: ColorCombinerMode::simple(
                ASrc::Zero,
                BSrc::Zero,
                CSrc::Zero,
                DSrc::Shade,
            ),
            prim_color: None,
            blend: false,
            z_compare: true,
            z_update: true,
        }
    }
}

} // verus!
