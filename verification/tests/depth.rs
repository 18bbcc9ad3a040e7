use moon_world::depth::{
    depth_test, is_shadowed, run_shadow_pass, texel_index, DepthBuffer, Fragment,
    DEPTH_ORDERED_MAX,
};
use moon_world::light_mapping::{LightMappingBuilder, PassState};
use moon_world::math::{wgpu_offset_m, Mat4};
use moon_world::pipeline::{CompareFunction, DepthStencilState, TextureFormat};
use moon_world::readback::{decode_pixels, Rgba};
use moon_world::texture::DEPTH_FAR;
use moon_world::three::{Body, VertexBuffer};
use nalgebra::{Matrix4, Point3, Vector3, Vector4};

fn mat4(m: &Matrix4<f32>) -> Mat4 {
    let mut w = [0u32; 16];
    for (i, x) in m.as_slice().iter().enumerate() {
        w[i] = x.to_bits();
    }
    Mat4::from_words(&w)
}

fn floats(m: &Mat4) -> Matrix4<f32> {
    let words: Vec<f32> = m.to_words().iter().map(|w| f32::from_bits(*w)).collect();
    Matrix4::from_column_slice(&words)
}

fn shadow_state() -> DepthStencilState {
    LightMappingBuilder::new().render_pipeline().depth_stencil.unwrap()
}

fn body(id: u64) -> Body {
    Body { model_m: Mat4::identity(), buf: VertexBuffer { id, size: 36 * 48 } }
}

fn frag(x: u32, y: u32, depth: f32) -> Fragment {
    Fragment { x, y, depth: depth.to_bits() }
}

/// Light-space clip position of a world point: texel and depth.
fn project(light_p: &Matrix4<f32>, light_v: &Matrix4<f32>, p: Point3<f32>, size: u32) -> Fragment {
    let clip = light_p * light_v * Vector4::new(p.x, p.y, p.z, 1.0);
    let ndc = clip / clip.w;
    let x = ((ndc.x * 0.5 + 0.5) * size as f32).floor() as u32;
    let y = ((1.0 - (ndc.y * 0.5 + 0.5)) * size as f32).floor() as u32;
    Fragment { x, y, depth: ndc.z.to_bits() }
}

#[test]
fn order_of_bit_patterns_is_the_order_of_depths() {
    let depths = [0.0f32, 1e-30, 0.15, 0.225, 0.25, 0.5, 0.999_999, 1.0];
    for w in depths.windows(2) {
        assert!(w[0].to_bits() < w[1].to_bits());
    }
}

#[test]
fn each_comparison() {
    let cases = [
        (CompareFunction::Never, false, false, false),
        (CompareFunction::Less, true, false, false),
        (CompareFunction::Equal, false, true, false),
        (CompareFunction::LessEqual, true, true, false),
        (CompareFunction::Greater, false, false, true),
        (CompareFunction::NotEqual, true, false, true),
        (CompareFunction::GreaterEqual, false, true, true),
        (CompareFunction::Always, true, true, true),
    ];
    for (f, less, equal, greater) in cases {
        assert_eq!(depth_test(f, 3, 5), less);
        assert_eq!(depth_test(f, 5, 5), equal);
        assert_eq!(depth_test(f, 7, 5), greater);
    }
}

#[test]
fn new_buffer_is_zeroed() {
    let b = DepthBuffer::new(3, 2);
    assert_eq!(b.width(), 3);
    assert_eq!(b.height(), 2);
    for y in 0..2 {
        for x in 0..3 {
            assert_eq!(b.texel(x, y), 0);
        }
    }
    assert_eq!(texel_index(3, 2, 2, 1), 5);
    assert_eq!(texel_index(3, 2, 0, 0), 0);
}

#[test]
fn batch_clears_then_keeps_the_nearest() {
    let state = shadow_state();
    let mut b = DepthBuffer::new(4, 4);
    b.run_batch(&state, PassState::Clear, &vec![frag(1, 1, 0.5), frag(1, 1, 0.25), frag(1, 1, 0.75)]);
    assert_eq!(b.texel(1, 1), 0.25f32.to_bits());
    assert_eq!(b.texel(0, 0), DEPTH_FAR);
    b.run_batch(&state, PassState::Accumulate, &vec![frag(1, 1, 0.5), frag(2, 3, 0.125)]);
    assert_eq!(b.texel(1, 1), 0.25f32.to_bits());
    assert_eq!(b.texel(2, 3), 0.125f32.to_bits());
    b.run_batch(&state, PassState::Accumulate, &vec![frag(4, 0, 0.1), frag(0, 4, 0.1), frag(9, 9, 0.1)]);
    assert_eq!(b.texel(0, 0), DEPTH_FAR);
    assert_eq!(b.texel(3, 0), DEPTH_FAR);
    b.run_batch(&state, PassState::Clear, &vec![]);
    assert_eq!(b.texel(1, 1), DEPTH_FAR);
    assert_eq!(b.texel(2, 3), DEPTH_FAR);
}

#[test]
fn batch_obeys_the_state() {
    let mut b = DepthBuffer::new(2, 1);
    let no_write = DepthStencilState {
        format: TextureFormat::Depth32Float,
        depth_write_enabled: false,
        depth_compare: CompareFunction::LessEqual,
    };
    b.run_batch(&no_write, PassState::Clear, &vec![frag(0, 0, 0.5)]);
    assert_eq!(b.texel(0, 0), DEPTH_FAR);
    let greater = DepthStencilState {
        format: TextureFormat::Depth32Float,
        depth_write_enabled: true,
        depth_compare: CompareFunction::Greater,
    };
    b.run_batch(&greater, PassState::Accumulate, &vec![frag(0, 0, 0.5)]);
    assert_eq!(b.texel(0, 0), DEPTH_FAR);
    let always = DepthStencilState {
        format: TextureFormat::Depth32Float,
        depth_write_enabled: true,
        depth_compare: CompareFunction::Always,
    };
    b.run_batch(&always, PassState::Accumulate, &vec![frag(0, 0, 0.5), frag(0, 0, 0.75)]);
    assert_eq!(b.texel(0, 0), 0.75f32.to_bits());
}

#[test]
fn light_without_casters_has_a_far_shadow_map_and_shadows_nothing() {
    let builder = LightMappingBuilder::new();
    let pass = builder.light_mapping(&Mat4::identity(), &vec![]);
    let map = run_shadow_pass(&shadow_state(), &pass, &vec![]);
    assert_eq!(map.width(), 1024);
    assert_eq!(map.height(), 1024);
    for y in 0..1024 {
        for x in 0..1024 {
            assert_eq!(map.texel(x, y), 1.0f32.to_bits());
        }
    }
    for depth in [0.0f32, 0.3, 0.999, 1.0, -0.0, -0.5, -1.0e30, f32::NEG_INFINITY, f32::NAN] {
        for bias in [0u32, 1, 1000, u32::MAX] {
            assert!(!is_shadowed(depth.to_bits(), map.texel(512, 512), bias));
        }
    }
    let behind_far = 1.0f32.to_bits() + 5;
    assert!(!is_shadowed(behind_far, map.texel(512, 512), 5));
    assert!(is_shadowed(behind_far, map.texel(512, 512), 4));
    assert!(is_shadowed(2.0f32.to_bits(), map.texel(512, 512), 0));
}

#[test]
fn shadow_map_does_not_depend_on_the_order_of_the_meshes() {
    let builder = LightMappingBuilder::new();
    let casters = vec![
        vec![frag(10, 10, 0.5), frag(11, 10, 0.5), frag(12, 10, 0.25)],
        vec![frag(10, 10, 0.25), frag(11, 10, 0.75), frag(500, 700, 0.125)],
        vec![frag(10, 10, 0.375), frag(12, 10, 0.25), frag(1023, 1023, 0.0)],
        vec![],
    ];
    let bodies: Vec<Body> = (0..4).map(body).collect();
    let orders: [[usize; 4]; 6] =
        [[0, 1, 2, 3], [3, 2, 1, 0], [1, 0, 3, 2], [2, 3, 0, 1], [1, 2, 3, 0], [0, 2, 1, 3]];
    let mut maps = vec![];
    for order in orders {
        let b: Vec<Body> = order.iter().map(|i| bodies[*i]).collect();
        let c: Vec<Vec<Fragment>> = order.iter().map(|i| casters[*i].clone()).collect();
        let pass = builder.light_mapping(&Mat4::identity(), &b);
        assert_eq!(pass.batch_v[0].state, PassState::Clear);
        let map = run_shadow_pass(&shadow_state(), &pass, &c);
        let texels: Vec<u32> =
            (0..1024u32).flat_map(|y| (0..1024u32).map(move |x| (x, y))).map(|(x, y)| map.texel(x, y)).collect();
        maps.push(texels);
    }
    for map in &maps[1..] {
        assert_eq!(map, &maps[0]);
    }
    let at = |x: usize, y: usize| maps[0][y * 1024 + x];
    assert_eq!(at(10, 10), 0.25f32.to_bits());
    assert_eq!(at(11, 10), 0.5f32.to_bits());
    assert_eq!(at(12, 10), 0.25f32.to_bits());
    assert_eq!(at(500, 700), 0.125f32.to_bits());
    assert_eq!(at(1023, 1023), 0.0f32.to_bits());
    assert_eq!(at(0, 0), DEPTH_FAR);
}

#[test]
fn a_depth_in_front_of_the_light_or_no_number_is_never_shadowed() {
    assert_eq!(DEPTH_ORDERED_MAX, f32::INFINITY.to_bits());
    let far = 1.0f32.to_bits();
    assert!(is_shadowed(f32::INFINITY.to_bits(), far, 0));
    assert!(!is_shadowed(f32::INFINITY.to_bits() + 1, far, 0));
    assert!(!is_shadowed((-0.5f32).to_bits(), far, 0));
    assert_eq!((-0.5f32).to_bits(), 0xBF00_0000);
    assert!(!is_shadowed(0x8000_0000, 0, 0));
    assert!(!is_shadowed(u32::MAX, 0, 0));
    assert!(!is_shadowed((-0.5f32).to_bits(), 0.25f32.to_bits(), 0));
    assert!(is_shadowed(0.5f32.to_bits(), 0.25f32.to_bits(), 0));
}

#[test]
fn shadowed_means_behind_the_stored_surface_by_more_than_the_bias() {
    assert!(!is_shadowed(5, 5, 0));
    assert!(is_shadowed(6, 5, 0));
    assert!(!is_shadowed(6, 5, 1));
    assert!(is_shadowed(7, 5, 1));
    assert!(!is_shadowed(4, 5, 0));
    assert!(!is_shadowed(u32::MAX, u32::MAX, u32::MAX));
    assert!(!is_shadowed(u32::MAX, 1, u32::MAX));
    assert!(is_shadowed(f32::INFINITY.to_bits(), 0, 0x7F7F_FFFF));
    assert!(!is_shadowed(f32::INFINITY.to_bits(), 0, 0x7F80_0000));
}

/// A light at (0, 5, 0) that looks straight down, with an orthographic
/// projection over [-10, 10] x [-10, 10], near 0, far 20.
fn light_above(x: f32, z: f32) -> (Matrix4<f32>, Matrix4<f32>) {
    let view = Matrix4::look_at_rh(
        &Point3::new(x, 5.0, z),
        &Point3::new(x, 0.0, z),
        &Vector3::new(0.0, 0.0, -1.0),
    );
    let proj = floats(&wgpu_offset_m()) * Matrix4::new_orthographic(-10.0, 10.0, -10.0, 10.0, 0.0, 20.0);
    (view, proj)
}

/// The fragments of a horizontal square at height `y` around `(cx, cz)`, one
/// per texel of the shadow map that its footprint covers.
fn horizontal_square(
    proj: &Matrix4<f32>,
    view: &Matrix4<f32>,
    cx: f32,
    cz: f32,
    half: f32,
    y: f32,
) -> Vec<Fragment> {
    let a = project(proj, view, Point3::new(cx - half, y, cz - half), 1024);
    let b = project(proj, view, Point3::new(cx + half, y, cz + half), 1024);
    let (x0, x1) = (a.x.min(b.x), a.x.max(b.x).min(1023));
    let (y0, y1) = (a.y.min(b.y), a.y.max(b.y).min(1023));
    let mut out = vec![];
    for ty in y0..=y1 {
        for tx in x0..=x1 {
            out.push(Fragment { x: tx, y: ty, depth: a.depth });
        }
    }
    out
}

#[test]
fn single_occluder_shadows_the_plane_beneath_it_and_nothing_else() {
    let (view, proj) = light_above(0.0, 0.0);
    let cube_top = horizontal_square(&proj, &view, 0.0, 0.0, 0.5, 2.0);
    let plane = horizontal_square(&proj, &view, 0.0, 0.0, 9.9, 0.0);
    assert!(!cube_top.is_empty());
    assert!(plane.len() > cube_top.len());

    let builder = LightMappingBuilder::new();
    let pass = builder.light_mapping(&mat4(&(proj * view)), &vec![body(1), body(2)]);
    let map = run_shadow_pass(&shadow_state(), &pass, &vec![plane.clone(), cube_top.clone()]);

    let bias = 16;
    let under = |f: &Fragment| cube_top.iter().any(|c| c.x == f.x && c.y == f.y);
    let mut shadowed = 0;
    for f in &plane {
        let dark = is_shadowed(f.depth, map.texel(f.x, f.y), bias);
        assert_eq!(dark, under(f));
        if dark {
            shadowed += 1;
        }
    }
    assert_eq!(shadowed, cube_top.len());
    for f in &cube_top {
        assert!(!is_shadowed(f.depth, map.texel(f.x, f.y), bias));
    }
    assert_eq!(f32::from_bits(plane[0].depth), 0.25);
    assert!((f32::from_bits(cube_top[0].depth) - 0.15).abs() < 1e-6);
}

#[test]
fn center_texel_holds_the_depth_of_the_top_face_of_the_cube() {
    let (view, proj) = light_above(0.0, -3.0);
    let top = horizontal_square(&proj, &view, 0.0, -3.0, 0.5, 0.5);
    let bottom = horizontal_square(&proj, &view, 0.0, -3.0, 0.5, -0.5);

    let builder = LightMappingBuilder::new();
    let cube = Body {
        model_m: mat4(&Matrix4::new_translation(&Vector3::new(0.0, 0.0, -3.0))),
        buf: VertexBuffer { id: 1, size: 36 * 48 },
    };
    let pass = builder.light_mapping(&mat4(&(proj * view)), &vec![cube]);
    assert_eq!(pass.light, mat4(&(proj * view)));
    let mut frags = bottom.clone();
    frags.extend(top.iter().copied());
    let map = run_shadow_pass(&shadow_state(), &pass, &vec![frags]);

    let clip = proj * view * Vector4::new(0.0, 0.5, -3.0, 1.0);
    let expected = clip.z / clip.w;
    assert!((expected - 4.5 / 20.0).abs() < 1e-6);
    assert_eq!(map.texel(512, 512), expected.to_bits());
    assert_eq!(map.texel(0, 0), DEPTH_FAR);
    assert!(!is_shadowed(expected.to_bits(), map.texel(512, 512), 0));
    let below = project(&proj, &view, Point3::new(0.0, -0.5, -3.0), 1024);
    assert!(is_shadowed(below.depth, map.texel(512, 512), 16));
}

#[test]
fn mod_test() {
    let pi = std::f32::consts::PI;
    let view = Matrix4::new_translation(&Vector3::new(0.0, 2.5, 0.0))
        * Matrix4::new_rotation(Vector3::new(pi * 0.25, 0.0, 0.0));
    let proj = floats(&wgpu_offset_m())
        * Matrix4::new_orthographic(-10.0, 10.0, -10.0, 10.0, 0.0, 500.0);

    let lm_builder = LightMappingBuilder::new();
    let body_v = vec![Body {
        model_m: mat4(
            &(Matrix4::new_translation(&Vector3::new(0.0, 0.0, -3.0))
                * Matrix4::new_rotation(Vector3::new(0.0, -pi * 0.25, 0.0))),
        ),
        buf: VertexBuffer { id: 0, size: 36 * 48 },
    }];

    let pass = lm_builder.light_mapping(&mat4(&(proj * view)), &body_v);
    assert_eq!(pass.batch_v.len(), 1);
    assert_eq!(pass.batch_v[0].draw.unwrap().vertex_count, 36);

    let depth_texture = run_shadow_pass(&shadow_state(), &pass, &vec![vec![frag(1, 0, 0.5)]]);
    let width = depth_texture.width();
    let mut buf = vec![];
    for r in 0..depth_texture.height() {
        for c in 0..width {
            buf.extend_from_slice(&f32::from_bits(depth_texture.texel(c, r)).to_ne_bytes());
        }
    }
    let pixels = decode_pixels(width, depth_texture.height(), &buf, |c, r, buf: &[u8]| {
        let offset = ((r * width + c) * 4) as usize;

        let depth =
            f32::from_ne_bytes([buf[offset], buf[offset + 1], buf[offset + 2], buf[offset + 3]]);

        let lightness = ((1.0 - depth) * 256.0) as u8;

        Rgba { r: lightness, g: lightness, b: lightness, a: 255 }
    });
    assert_eq!(pixels.len(), 1024 * 1024);
    assert_eq!(pixels[0], Rgba { r: 0, g: 0, b: 0, a: 255 });
    assert_eq!(pixels[1], Rgba { r: 128, g: 128, b: 128, a: 255 });
}
