use moon_world::binding::{check_conforms, Resource, TextureRef};
use moon_world::body_render::{render_light, BodyRenderer, CompositeDraw};
use moon_world::light_mapping::{
    draw_of, pass_state, Draw, LightMappingBuilder, PassState, ShadowBatch,
};
use moon_world::math::{Mat4, Vec4};
use moon_world::pipeline::{
    BindingType, BlendFactor, BlendOperation, BlendState, CompareFunction, PrimitiveTopology,
    ShaderId, TextureFormat,
};
use moon_world::structs::Point3Input;
use moon_world::texture::{attachment, TextureDescriptor, TextureUsages, DEPTH_FAR, INTERNAL_SIZE};
use moon_world::three::{Body, Light, VertexBuffer};
use moon_world::view_renderer::{GBuffer, ViewRenderer};

fn m(seed: u32) -> Mat4 {
    let mut w = [0u32; 16];
    for i in 0..16 {
        w[i] = seed * 100 + i as u32;
    }
    Mat4::from_words(&w)
}

fn body(seed: u32, size: u64) -> Body {
    Body { model_m: m(seed), buf: VertexBuffer { id: seed as u64, size } }
}

fn light(seed: u32) -> Light {
    Light {
        color: Vec4::new(seed, seed + 1, seed + 2, seed + 3),
        view: m(seed + 50),
        proj: m(seed + 70),
        matrix: m(seed + 90),
    }
}

fn all_uses() -> TextureUsages {
    TextureUsages { render_attachment: true, texture_binding: true, copy_src: true }
}

#[test]
fn far_plane_is_one() {
    assert_eq!(DEPTH_FAR, 1.0f32.to_bits());
    assert_eq!(INTERNAL_SIZE, 1024);
}

#[test]
fn attachment_can_be_drawn_read_and_copied() {
    assert_eq!(
        attachment(3, 5, TextureFormat::Depth32Float),
        TextureDescriptor { width: 3, height: 5, format: TextureFormat::Depth32Float, usage: all_uses() }
    );
}

#[test]
fn first_batch_clears_all_others_accumulate() {
    assert_eq!(pass_state(0), PassState::Clear);
    assert_eq!(pass_state(1), PassState::Accumulate);
    assert_eq!(pass_state(2), PassState::Accumulate);
    assert_eq!(pass_state(usize::MAX), PassState::Accumulate);
}

#[test]
fn vertex_count_is_whole_vertices_reduced_to_32_bits() {
    assert_eq!(VertexBuffer { id: 0, size: 0 }.vertex_count(), 0);
    assert_eq!(VertexBuffer { id: 0, size: 47 }.vertex_count(), 0);
    assert_eq!(VertexBuffer { id: 0, size: 48 }.vertex_count(), 1);
    assert_eq!(VertexBuffer { id: 0, size: 36 * 48 }.vertex_count(), 36);
    assert_eq!(VertexBuffer { id: 0, size: 36 * 48 + 47 }.vertex_count(), 36);
    assert_eq!(VertexBuffer { id: 0, size: 48 * (1u64 << 32) }.vertex_count(), 0);
    assert_eq!(VertexBuffer { id: 0, size: 48 * ((1u64 << 32) + 5) }.vertex_count(), 5);
    assert_eq!(VertexBuffer { id: 0, size: u64::MAX }.vertex_count(), ((u64::MAX / 48) % (1 << 32)) as u32);
}

#[test]
fn draw_covers_the_whole_buffer_under_the_mesh_transform() {
    let b = body(3, 96);
    assert_eq!(draw_of(&b), Draw { model_m: m(3), buf: b.buf, vertex_count: 2 });
}

#[test]
fn shadow_pipeline_tests_less_or_equal_and_writes_depth() {
    let builder = LightMappingBuilder::new();
    let p = builder.render_pipeline();
    assert_eq!(p.label, Some("Light Mapping Pipeline".to_string()));
    assert_eq!(p.shader, ShaderId::LightMapping);
    assert_eq!(p.topology, PrimitiveTopology::TriangleList);
    let depth = p.depth_stencil.unwrap();
    assert_eq!(depth.format, TextureFormat::Depth32Float);
    assert!(depth.depth_write_enabled);
    assert_eq!(depth.depth_compare, CompareFunction::LessEqual);
    assert_eq!(p.targets.len(), 1);
    assert_eq!(p.targets[0].format, TextureFormat::Rgba32Float);
    assert_eq!(p.targets[0].blend, Some(BlendState::replace()));
    assert_eq!(p.buffers, vec![Point3Input::desc()]);
    assert_eq!(p.layout.len(), 2);
    assert_eq!(p.layout[0].binding, 0);
    assert_eq!(p.layout[1].binding, 1);
    assert!(p.layout.iter().all(|e| e.ty == BindingType::UniformBuffer));
    assert_eq!(p.validate(), Ok(()));
}

#[test]
fn shadow_pass_has_one_batch_per_mesh_in_order() {
    let builder = LightMappingBuilder::new();
    let body_v = vec![body(1, 48), body(2, 96), body(3, 144)];
    let pass = builder.light_mapping(&m(8), &body_v);
    assert_eq!(pass.light, m(8));
    assert_eq!(pass.color, attachment(1024, 1024, TextureFormat::Rgba32Float));
    assert_eq!(pass.depth, attachment(1024, 1024, TextureFormat::Depth32Float));
    assert_eq!(
        pass.batch_v,
        vec![
            ShadowBatch { state: PassState::Clear, draw: Some(draw_of(&body_v[0])) },
            ShadowBatch { state: PassState::Accumulate, draw: Some(draw_of(&body_v[1])) },
            ShadowBatch { state: PassState::Accumulate, draw: Some(draw_of(&body_v[2])) },
        ]
    );
    assert_eq!(pass.batch_v[1].draw.unwrap().vertex_count, 2);
}

#[test]
fn shadow_pass_without_meshes_only_clears() {
    let builder = LightMappingBuilder::new();
    let pass = builder.light_mapping(&m(8), &vec![]);
    assert_eq!(pass.batch_v, vec![ShadowBatch { state: PassState::Clear, draw: None }]);
    assert_eq!(pass.bind_group(0), None);
}

#[test]
fn shadow_draw_binds_light_and_model() {
    let builder = LightMappingBuilder::new();
    let pass = builder.light_mapping(&m(8), &vec![body(1, 48), body(2, 48)]);
    let group = pass.bind_group(1).unwrap();
    assert_eq!(group, vec![Resource::Matrix(m(8)), Resource::Matrix(m(2))]);
    assert!(check_conforms(&group, &builder.render_pipeline().layout));
    assert_eq!(pass.bind_group(2), None);
}

#[test]
fn geometry_pipeline_tests_less_and_writes_colour_and_normal() {
    let renderer = ViewRenderer::new();
    let p = renderer.render_pipeline();
    assert_eq!(p.label, Some("View Render Pipeline".to_string()));
    assert_eq!(p.shader, ShaderId::ViewRenderer);
    let depth = p.depth_stencil.unwrap();
    assert_eq!(depth.format, TextureFormat::Depth32Float);
    assert!(depth.depth_write_enabled);
    assert_eq!(depth.depth_compare, CompareFunction::Less);
    assert_eq!(p.targets.len(), 2);
    assert!(p.targets.iter().all(|t| t.format == TextureFormat::Rgba32Float));
    assert_eq!(p.buffers, LightMappingBuilder::new().render_pipeline().buffers);
    assert_eq!(p.validate(), Ok(()));
}

#[test]
fn gbuffer_has_three_textures_of_one_size() {
    let renderer = ViewRenderer::new();
    assert_eq!(
        renderer.gbuffer(),
        GBuffer {
            color: attachment(1024, 1024, TextureFormat::Rgba32Float),
            normal: attachment(1024, 1024, TextureFormat::Rgba32Float),
            depth: attachment(1024, 1024, TextureFormat::Depth32Float),
        }
    );
}

#[test]
fn view_renderer_resize_hands_back_the_old_gbuffer() {
    let mut renderer = ViewRenderer::new();
    let old = renderer.gbuffer();
    assert_eq!(renderer.resize(0, 600), None);
    assert_eq!(renderer.resize(800, 0), None);
    assert_eq!(renderer.gbuffer(), old);
    assert_eq!(renderer.resize(800, 600), Some(old));
    assert_eq!(renderer.gbuffer().color, attachment(800, 600, TextureFormat::Rgba32Float));
    assert_eq!(renderer.gbuffer().normal, attachment(800, 600, TextureFormat::Rgba32Float));
    assert_eq!(renderer.gbuffer().depth, attachment(800, 600, TextureFormat::Depth32Float));
}

#[test]
fn geometry_pass_draws_each_mesh_once() {
    let renderer = ViewRenderer::new();
    let body_v = vec![body(1, 48), body(2, 96)];
    let pass = renderer.view_renderer(&m(4), &m(5), &body_v);
    assert_eq!(pass.target, renderer.gbuffer());
    assert_eq!(pass.load, PassState::Clear);
    assert_eq!(pass.view_m, m(4));
    assert_eq!(pass.proj_m, m(5));
    assert_eq!(pass.draw_v, vec![draw_of(&body_v[0]), draw_of(&body_v[1])]);
    let group = pass.bind_group(1).unwrap();
    assert_eq!(
        group,
        vec![Resource::Matrix(m(4)), Resource::Matrix(m(5)), Resource::Matrix(m(2))]
    );
    assert!(check_conforms(&group, &renderer.render_pipeline().layout));
    assert_eq!(pass.bind_group(2), None);
    let empty = renderer.view_renderer(&m(4), &m(5), &vec![]);
    assert!(empty.draw_v.is_empty());
    assert_eq!(empty.load, PassState::Clear);
}

#[test]
fn composite_pipeline_accumulates_without_depth_test() {
    let renderer = BodyRenderer::new(TextureFormat::Bgra8UnormSrgb);
    let p = renderer.render_pipeline();
    assert_eq!(p.label, Some("Body Render Pipeline".to_string()));
    assert_eq!(p.shader, ShaderId::BodyRender);
    assert_eq!(p.depth_stencil, None);
    assert_eq!(p.targets.len(), 1);
    assert_eq!(p.targets[0].format, TextureFormat::Bgra8UnormSrgb);
    let blend = p.targets[0].blend.unwrap();
    assert_eq!(blend, BlendState::accumulate());
    assert_eq!(blend.color.operation, BlendOperation::Add);
    assert_eq!(blend.color.src_factor, BlendFactor::One);
    assert_eq!(blend.color.dst_factor, BlendFactor::One);
    assert_eq!(blend.alpha.operation, BlendOperation::Max);
    assert_eq!(p.buffers, vec![Point3Input::pos_only_desc()]);
    assert_eq!(p.layout.len(), 12);
    assert_eq!(p.validate(), Ok(()));
}

#[test]
fn render_light_draws_the_quad_with_the_lights_own_shadow_map() {
    let l = light(1);
    assert_eq!(
        render_light(4, &l, 77),
        CompositeDraw {
            shadow_index: 4,
            light_color: l.color,
            light_v: l.view,
            light_p: l.proj,
            ratio: 77,
            vertex_count: 6,
        }
    );
}

#[test]
fn composite_pass_has_one_draw_per_light_in_order() {
    let renderer = BodyRenderer::new(TextureFormat::Rgba8Unorm);
    let light_v = vec![light(1), light(2), light(3)];
    let pass = renderer.body_render(&light_v, &m(4), &m(5), 1.5f32.to_bits());
    assert_eq!(pass.load, PassState::Accumulate);
    assert_eq!(pass.view_m, m(4));
    assert_eq!(pass.proj_m, m(5));
    assert_eq!(pass.draw_v.len(), 3);
    for (i, d) in pass.draw_v.iter().enumerate() {
        assert_eq!(*d, render_light(i, &light_v[i], 1.5f32.to_bits()));
    }
    let group = pass.bind_group(2).unwrap();
    assert_eq!(
        group,
        vec![
            Resource::Matrix(m(4)),
            Resource::Matrix(m(5)),
            Resource::Matrix(light_v[2].view),
            Resource::Texture(TextureRef::GBufferColor),
            Resource::Texture(TextureRef::ShadowColor(2)),
            Resource::Texture(TextureRef::ShadowDepth(2)),
            Resource::Matrix(light_v[2].proj),
            Resource::Word(1.5f32.to_bits()),
            Resource::Texture(TextureRef::GBufferDepth),
            Resource::Texture(TextureRef::GBufferNormal),
            Resource::Sampler,
            Resource::Vector(light_v[2].color),
        ]
    );
    assert!(check_conforms(&group, &renderer.render_pipeline().layout));
    assert_eq!(pass.bind_group(3), None);
    let empty = renderer.body_render(&vec![], &m(4), &m(5), 0);
    assert!(empty.draw_v.is_empty());
    assert_eq!(empty.load, PassState::Accumulate);
}

#[test]
fn bind_group_of_the_wrong_shape_does_not_conform() {
    let renderer = BodyRenderer::new(TextureFormat::Rgba8Unorm);
    let layout = &renderer.render_pipeline().layout;
    let pass = renderer.body_render(&vec![light(1)], &m(4), &m(5), 0);
    let good = pass.bind_group(0).unwrap();
    assert!(check_conforms(&good, layout));
    let mut short = good.clone();
    short.pop();
    assert!(!check_conforms(&short, layout));
    let mut swapped = good.clone();
    swapped.swap(4, 5);
    assert!(!check_conforms(&swapped, layout));
    let mut wrong = good.clone();
    wrong[10] = Resource::Word(0);
    assert!(!check_conforms(&wrong, layout));
    assert!(check_conforms(&vec![], &vec![]));
}

#[test]
fn resource_types() {
    assert_eq!(Resource::Matrix(m(1)).binding_type(), BindingType::UniformBuffer);
    assert_eq!(Resource::Vector(Vec4::new(1, 2, 3, 4)).binding_type(), BindingType::UniformBuffer);
    assert_eq!(Resource::Word(3).binding_type(), BindingType::UniformBuffer);
    assert_eq!(Resource::Sampler.binding_type(), BindingType::Sampler);
    assert_eq!(Resource::Texture(TextureRef::GBufferColor).binding_type(), BindingType::ColorTexture);
    assert_eq!(Resource::Texture(TextureRef::GBufferNormal).binding_type(), BindingType::ColorTexture);
    assert_eq!(Resource::Texture(TextureRef::ShadowColor(0)).binding_type(), BindingType::ColorTexture);
    assert_eq!(Resource::Texture(TextureRef::GBufferDepth).binding_type(), BindingType::DepthTexture);
    assert_eq!(Resource::Texture(TextureRef::ShadowDepth(9)).binding_type(), BindingType::DepthTexture);
    assert!(TextureRef::ShadowDepth(1).is_depth());
    assert!(!TextureRef::ShadowColor(1).is_depth());
}
