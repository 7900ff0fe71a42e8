use n64_gfx::cmd::{CommandBuffer, Mat4, TexCoord, Vertex};
use n64_gfx::color::{blend_pixel, combine, pack_5551};
use n64_gfx::emu::RenderTarget;
use n64_gfx::mesh_drawable::mesh_pipeline;
use n64_gfx::pipeline::{
    AAlphaSrc, ASrc, BAlphaSrc, BSrc, CAlphaSrc, CSrc, ColorCombinerMode, DAlphaSrc, DSrc,
    Pipeline,
};
use n64_gfx::shadow::shadow_pipeline;

const BG: u32 = 0x0000_00FF;
const ONE: i32 = 65536;

fn tri_mesh() -> (Vec<Vertex>, Vec<TexCoord>, Vec<u32>, Vec<u16>) {
    let verts = vec![
        Vertex { x: 0, y: 0, z: 0 },
        Vertex { x: ONE, y: 0, z: 0 },
        Vertex { x: 0, y: ONE, z: 0 },
    ];
    let uvs = vec![
        TexCoord { u: 0, v: 0 },
        TexCoord { u: ONE, v: 0 },
        TexCoord { u: 0, v: ONE },
    ];
    let colors = vec![0xFFFF_FFFF, 0xFFFF_FFFF, 0xFFFF_FFFF];
    let indices = vec![0u16, 1, 2];
    (verts, uvs, colors, indices)
}

#[test]
fn empty_flush_leaves_target_unchanged() {
    let cb = CommandBuffer::new();
    let mut target = RenderTarget::new(320, 240);
    cb.flush(&mut target);
    for y in 0..240 {
        for x in 0..320 {
            assert_eq!(target.pixel(x, y), BG);
            assert_eq!(target.depth_at(x, y), 0xFFFF);
        }
    }
}

#[test]
fn cleared_buffer_flush_is_noop() {
    let mut cb = CommandBuffer::new();
    let (verts, uvs, colors, indices) = tri_mesh();
    cb.add_mesh_indexed(&verts, &uvs, &colors, &indices, &Mat4::identity());
    cb.clear();
    let mut target = RenderTarget::new(64, 64);
    cb.flush(&mut target);
    for y in 0..64 {
        for x in 0..64 {
            assert_eq!(target.pixel(x, y), BG);
        }
    }
}

#[test]
fn replay_is_deterministic() {
    let mut cb = CommandBuffer::new();
    let (verts, uvs, colors, indices) = tri_mesh();
    cb.set_pipeline(&mesh_pipeline(false));
    cb.add_mesh_indexed(&verts, &uvs, &colors, &indices, &Mat4::identity());
    cb.set_pipeline(&shadow_pipeline());
    cb.add_mesh_indexed(&verts, &uvs, &colors, &indices, &Mat4::identity());

    let mut t1 = RenderTarget::new(32, 32);
    let mut t2 = RenderTarget::new(32, 32);
    cb.flush(&mut t1);
    cb.flush(&mut t2);
    for y in 0..32 {
        for x in 0..32 {
            assert_eq!(t1.pixel(x, y), t2.pixel(x, y));
            assert_eq!(t1.depth_at(x, y), t2.depth_at(x, y));
        }
    }
}

#[test]
fn triangle_footprint_only() {
    // A 320x240 mode; one triangle {(0,0,0),(1,0,0),(0,1,0)} with the
    // default pipeline and the identity transform. Its screen footprint
    // is the three sample points (0,0), (1,0) and (0,1).
    let mut cb = CommandBuffer::new();
    let (verts, uvs, colors, indices) = tri_mesh();
    cb.add_mesh_indexed(&verts, &uvs, &colors, &indices, &Mat4::identity());
    let mut target = RenderTarget::new(320, 240);
    cb.flush(&mut target);
    for y in 0..240 {
        for x in 0..320 {
            let inside = x + y <= 1;
            if inside {
                assert_eq!(target.pixel(x, y), 0xFFFF_FFFF, "pixel ({x},{y})");
            } else {
                assert_eq!(target.pixel(x, y), BG, "pixel ({x},{y})");
            }
        }
    }
    // Depth was written for covered pixels (default pipeline updates z).
    assert_eq!(target.depth_at(0, 0), 0);
    assert_eq!(target.depth_at(5, 5), 0xFFFF);
}

#[test]
fn pipeline_stickiness() {
    // Set P (red primitive), submit M1 and M2, set Q (green primitive),
    // submit M3: M1 and M2 must render with P, M3 with Q.
    let mut p = Pipeline::default();
    p.color_combiner_mode = ColorCombinerMode::single(DSrc::Primitive);
    p.prim_color = Some(0xFF00_00FF);
    let mut q = p;
    q.prim_color = Some(0x00FF_00FF);

    let uvs = vec![TexCoord { u: 0, v: 0 }; 3];
    let colors = vec![0xFFFF_FFFF; 3];
    let indices = vec![0u16, 1, 2];
    // Three one-pixel triangles at x = 0, 2, 4.
    let tri_at = |x0: i32| {
        vec![
            Vertex { x: x0 * ONE, y: 0, z: 0 },
            Vertex { x: x0 * ONE + ONE / 2, y: 0, z: 0 },
            Vertex { x: x0 * ONE, y: ONE / 2, z: 0 },
        ]
    };

    let mut cb = CommandBuffer::new();
    cb.set_pipeline(&p);
    cb.add_mesh_indexed(&tri_at(0), &uvs, &colors, &indices, &Mat4::identity());
    cb.add_mesh_indexed(&tri_at(2), &uvs, &colors, &indices, &Mat4::identity());
    cb.set_pipeline(&q);
    cb.add_mesh_indexed(&tri_at(4), &uvs, &colors, &indices, &Mat4::identity());

    let mut target = RenderTarget::new(16, 16);
    cb.flush(&mut target);
    assert_eq!(target.pixel(0, 0), 0xFF00_00FF);
    assert_eq!(target.pixel(2, 0), 0xFF00_00FF);
    assert_eq!(target.pixel(4, 0), 0x00FF_00FF);
    assert_eq!(target.pixel(6, 0), BG);
}

#[test]
fn blend_golden_value() {
    // Blend-enabled primitive color 0xA0A0A0FF over an opaque white
    // texel: with an opaque source alpha the blend returns the source.
    assert_eq!(blend_pixel(0xA0A0_A0FF, 0xFFFF_FFFF), 0xA0A0_A0FF);
    // A translucent source mixes: alpha 0x60 of white over black.
    // Each channel: (255*96 + 0*(255-96)) / 255 = 96.
    assert_eq!(blend_pixel(0xFFFF_FF60, 0x0000_00FF), 0x6060_6060);
}

#[test]
fn blended_draw_over_opaque_texel() {
    // A white triangle drawn first, then the same footprint drawn with a
    // blend-enabled pipeline and primitive color 0xA0A0A0FF: the covered
    // pixel holds the blended golden value.
    let (verts, uvs, colors, indices) = tri_mesh();
    let mut blended = Pipeline::default();
    blended.color_combiner_mode = ColorCombinerMode::single(DSrc::Primitive);
    blended.prim_color = Some(0xA0A0_A0FF);
    blended.blend = true;
    blended.z_update = false;

    let mut cb = CommandBuffer::new();
    cb.set_pipeline(&mesh_pipeline(false));
    cb.add_mesh_indexed(&verts, &uvs, &colors, &indices, &Mat4::identity());
    cb.set_pipeline(&blended);
    cb.add_mesh_indexed(&verts, &uvs, &colors, &indices, &Mat4::identity());
    let mut target = RenderTarget::new(8, 8);
    cb.flush(&mut target);
    assert_eq!(target.pixel(0, 0), 0xA0A0_A0FF);
    assert_eq!(target.pixel(7, 7), BG);
}

#[test]
fn combiner_pass_through_shade() {
    let m = ColorCombinerMode::simple(ASrc::Zero, BSrc::Zero, CSrc::Zero, DSrc::Shade);
    assert_eq!(combine(&m, 0x1234_5678, 0xFFFF_FFFF), 0x1234_5678);
}

#[test]
fn combiner_formula_exact() {
    // (A - B) * C / 255 + D with A = Shade, B = Zero, C = Primitive,
    // D = Zero: channel r = (0x80 * 0x40) / 255 = 0x20.
    let m = ColorCombinerMode::one(
        ASrc::Shade,
        BSrc::Zero,
        CSrc::Primitive,
        DSrc::Zero,
        AAlphaSrc::ShadeAlpha,
        BAlphaSrc::Zero,
        CAlphaSrc::Zero,
        DAlphaSrc::Zero,
    );
    let out = combine(&m, 0x8080_80FF, 0x4040_40FF);
    // Alpha: (shade_a - 0) * 0 / 255 + 0 = 0.
    assert_eq!(out, 0x2020_2000);
}

#[test]
fn combiner_damage_flash() {
    // The damage-flash variant saturates color at white and takes the
    // texel alpha: (One - Zero) * Texel / 255 + Primitive, all over the
    // constant white texel.
    let p = mesh_pipeline(true);
    assert_eq!(p.prim_color, Some(0xA0A0_A0FF));
    let out = combine(&p.color_combiner_mode, 0x0000_00FF, 0xA0A0_A0FF);
    assert_eq!(out, 0xFFFF_FFFF);
}

#[test]
fn combiner_clamps_at_zero() {
    // (Zero - One) * One / 255 + Zero underflows and clamps to zero.
    let m = ColorCombinerMode::one(
        ASrc::Zero,
        BSrc::One,
        CSrc::One,
        DSrc::Zero,
        AAlphaSrc::Zero,
        BAlphaSrc::One,
        CAlphaSrc::One,
        DAlphaSrc::Zero,
    );
    assert_eq!(combine(&m, 0xFFFF_FFFF, 0xFFFF_FFFF), 0x0000_0000);
}

#[test]
fn pack_5551_golden() {
    // Opaque black packs to the console clear pixel.
    assert_eq!(pack_5551(0x0000_00FF), 0x0001);
    assert_eq!(pack_5551(0xFFFF_FFFF), 0xFFFF);
    // 0xA0 >> 3 = 0x14 in each channel; alpha 0xFF -> 1.
    assert_eq!(pack_5551(0xA0A0_A0FF), (0x14 << 11) | (0x14 << 6) | (0x14 << 1) | 1);
}

#[test]
fn shadow_pipeline_fields() {
    let s = shadow_pipeline();
    assert!(s.blend);
    assert!(s.z_compare);
    assert!(!s.z_update);
    assert_eq!(s.prim_color, Some(0x1010_1060));
    assert_eq!(s.color_combiner_mode.d, DSrc::Primitive);
}

#[test]
fn default_pipeline_fields() {
    let p = Pipeline::default();
    assert!(p.z_compare);
    assert!(p.z_update);
    assert!(!p.blend);
    assert_eq!(p.prim_color, None);
    assert_eq!(p.color_combiner_mode.d, DSrc::Shade);
}

#[test]
fn depth_test_rejects_farther_draw() {
    // A near triangle (z = 0) drawn first; a far triangle (z = 3) over
    // the same footprint fails the depth test and leaves the pixel.
    let uvs = vec![TexCoord { u: 0, v: 0 }; 3];
    let indices = vec![0u16, 1, 2];
    let near = vec![
        Vertex { x: 0, y: 0, z: 0 },
        Vertex { x: ONE, y: 0, z: 0 },
        Vertex { x: 0, y: ONE, z: 0 },
    ];
    let far = vec![
        Vertex { x: 0, y: 0, z: 3 * ONE },
        Vertex { x: ONE, y: 0, z: 3 * ONE },
        Vertex { x: 0, y: ONE, z: 3 * ONE },
    ];
    let mut red = Pipeline::default();
    red.color_combiner_mode = ColorCombinerMode::single(DSrc::Primitive);
    red.prim_color = Some(0xFF00_00FF);
    let mut green = red;
    green.prim_color = Some(0x00FF_00FF);

    let mut cb = CommandBuffer::new();
    cb.set_pipeline(&red);
    cb.add_mesh_indexed(&near, &uvs, &vec![0xFFFF_FFFF; 3], &indices, &Mat4::identity());
    cb.set_pipeline(&green);
    cb.add_mesh_indexed(&far, &uvs, &vec![0xFFFF_FFFF; 3], &indices, &Mat4::identity());
    let mut target = RenderTarget::new(8, 8);
    cb.flush(&mut target);
    assert_eq!(target.pixel(0, 0), 0xFF00_00FF);
    assert_eq!(target.depth_at(0, 0), 0);
}

#[test]
fn command_buffer_len_and_clear() {
    let mut cb = CommandBuffer::new();
    assert_eq!(cb.len(), 0);
    let (verts, uvs, colors, indices) = tri_mesh();
    cb.add_mesh_indexed(&verts, &uvs, &colors, &indices, &Mat4::identity());
    assert_eq!(cb.len(), 1);
    let sub = cb.submission(0);
    assert_eq!(sub.verts.len(), 3);
    assert_eq!(sub.indices.len(), 3);
    cb.clear();
    assert_eq!(cb.len(), 0);
}

#[test]
fn out_of_band_triangle_is_culled() {
    // A transform scaling far beyond the guard band culls the triangle
    // whole; the target stays background.
    let (verts, uvs, colors, indices) = tri_mesh();
    let mut huge = Mat4::identity();
    huge.m00 = i32::MAX;
    huge.m03 = i32::MAX;
    let mut cb = CommandBuffer::new();
    cb.add_mesh_indexed(&verts, &uvs, &colors, &indices, &huge);
    let mut target = RenderTarget::new(8, 8);
    cb.flush(&mut target);
    for y in 0..8 {
        for x in 0..8 {
            assert_eq!(target.pixel(x, y), BG);
        }
    }
}

#[test]
fn packed_frame_format() {
    let (verts, uvs, colors, indices) = tri_mesh();
    let mut cb = CommandBuffer::new();
    cb.add_mesh_indexed(&verts, &uvs, &colors, &indices, &Mat4::identity());
    let mut target = RenderTarget::new(8, 8);
    cb.flush(&mut target);
    let packed = target.packed_pixels();
    assert_eq!(packed.len(), 64);
    // Covered pixel (0,0) packs white; background packs the clear pixel.
    assert_eq!(packed[0], 0xFFFF);
    assert_eq!(packed[63], 0x0001);
}
