use moon_world::drawer::{
    next_action, FrameAction, FramePlan, Submission, SubmitOutcome, ThreeDrawer,
};
use moon_world::err::RenderError;
use moon_world::light_mapping::{draw_of, LightMappingBuilder, PassState};
use moon_world::math::{Mat4, Vec4};
use moon_world::pipeline::TextureFormat;
use moon_world::texture::attachment;
use moon_world::three::{partition, Body, Light, ThreeLook, VertexBuffer};
use moon_world::view_renderer::GBuffer;

fn m(seed: u32) -> Mat4 {
    let mut w = [0u32; 16];
    for i in 0..16 {
        w[i] = seed * 100 + i as u32;
    }
    Mat4::from_words(&w)
}

fn body(seed: u32) -> Body {
    Body { model_m: m(seed), buf: VertexBuffer { id: seed as u64, size: 48 * seed as u64 } }
}

fn light(seed: u32) -> Light {
    Light {
        color: Vec4::new(seed, seed, seed, seed),
        view: m(seed + 50),
        proj: m(seed + 70),
        matrix: m(seed + 90),
    }
}

fn scene() -> Vec<ThreeLook> {
    vec![
        ThreeLook::Body(body(1)),
        ThreeLook::Light(light(1)),
        ThreeLook::Body(body(2)),
        ThreeLook::Light(light(2)),
        ThreeLook::Body(body(3)),
    ]
}

#[test]
fn look_accessors() {
    let mut b = ThreeLook::Body(body(1));
    let mut l = ThreeLook::Light(light(1));
    assert_eq!(b.as_body(), Some(&body(1)));
    assert_eq!(b.as_light(), None);
    assert_eq!(l.as_light(), Some(&light(1)));
    assert_eq!(l.as_body(), None);
    assert!(b.as_light_mut().is_none());
    assert!(l.as_body_mut().is_none());
    b.as_body_mut().unwrap().model_m = m(9);
    assert_eq!(b, ThreeLook::Body(Body { model_m: m(9), buf: body(1).buf }));
    l.as_light_mut().unwrap().color = Vec4::new(7, 7, 7, 7);
    assert_eq!(
        l,
        ThreeLook::Light(Light {
            color: Vec4::new(7, 7, 7, 7),
            view: m(51),
            proj: m(71),
            matrix: m(91),
        })
    );
}

#[test]
fn partition_keeps_the_order_of_the_scene() {
    let (body_v, light_v) = partition(&scene());
    assert_eq!(body_v, vec![body(1), body(2), body(3)]);
    assert_eq!(light_v, vec![light(1), light(2)]);
    let (b, l) = partition(&vec![]);
    assert!(b.is_empty() && l.is_empty());
    let (b, l) = partition(&vec![ThreeLook::Body(body(2)), ThreeLook::Body(body(1)), ThreeLook::Body(body(2))]);
    assert_eq!(b, vec![body(2), body(1), body(2)]);
    assert!(l.is_empty());
}

#[test]
fn new_renderer_stands_at_the_origin() {
    let drawer = ThreeDrawer::new(TextureFormat::Rgba8Unorm, m(6));
    assert_eq!(*drawer.view_m(), Mat4::identity());
    assert_eq!(drawer.gbuffer().color, attachment(1024, 1024, TextureFormat::Rgba32Float));
    assert_eq!(drawer.body_renderer().render_pipeline().targets[0].format, TextureFormat::Rgba8Unorm);
    assert_eq!(drawer.validate(), Ok(()));
    assert_eq!(
        drawer.light_mapping_builder().render_pipeline(),
        LightMappingBuilder::new().render_pipeline()
    );
    assert_eq!(drawer.view_renderer().gbuffer(), drawer.gbuffer());
}

#[test]
fn a_depth_format_as_target_cannot_be_built() {
    let drawer = ThreeDrawer::new(TextureFormat::Depth32Float, m(6));
    assert_eq!(drawer.validate(), Err(RenderError::PipelineBuild));
}

#[test]
fn frame_has_shadow_passes_then_geometry_then_composite() {
    let mut drawer = ThreeDrawer::new(TextureFormat::Rgba8Unorm, m(6));
    *drawer.view_m_mut() = m(7);
    let plan = drawer.render(&scene(), 2.0f32.to_bits());
    let body_v = vec![body(1), body(2), body(3)];

    assert_eq!(plan.shadow_v.len(), 2);
    for (i, l) in [light(1), light(2)].iter().enumerate() {
        let pass = &plan.shadow_v[i];
        assert_eq!(pass.light, l.matrix);
        assert_eq!(*pass, drawer.light_mapping_builder().light_mapping(&l.matrix, &body_v));
        assert_eq!(pass.batch_v.len(), 3);
        assert_eq!(pass.batch_v[0].state, PassState::Clear);
        assert_eq!(pass.batch_v[1].state, PassState::Accumulate);
        assert_eq!(pass.batch_v[2].state, PassState::Accumulate);
    }

    assert_eq!(plan.geometry.load, PassState::Clear);
    assert_eq!(plan.geometry.view_m, m(7));
    assert_eq!(plan.geometry.proj_m, m(6));
    assert_eq!(plan.geometry.target, drawer.gbuffer());
    assert_eq!(
        plan.geometry.draw_v,
        vec![draw_of(&body(1)), draw_of(&body(2)), draw_of(&body(3))]
    );

    assert_eq!(plan.composite.load, PassState::Accumulate);
    assert_eq!(plan.composite.view_m, m(7));
    assert_eq!(plan.composite.proj_m, m(6));
    assert_eq!(plan.composite.draw_v.len(), 2);
    for (i, l) in [light(1), light(2)].iter().enumerate() {
        let d = plan.composite.draw_v[i];
        assert_eq!(d.shadow_index, i);
        assert_eq!(d.light_color, l.color);
        assert_eq!(d.light_v, l.view);
        assert_eq!(d.light_p, l.proj);
        assert_eq!(d.ratio, 2.0f32.to_bits());
        assert_eq!(d.vertex_count, 6);
    }
}

#[test]
fn submissions_come_in_the_order_of_the_frame() {
    let drawer = ThreeDrawer::new(TextureFormat::Rgba8Unorm, m(6));
    let plan = drawer.render(&scene(), 0);
    assert_eq!(
        plan.submission_v(),
        vec![
            Submission::Shadow { light: 0, batch: 0 },
            Submission::Shadow { light: 0, batch: 1 },
            Submission::Shadow { light: 0, batch: 2 },
            Submission::Shadow { light: 1, batch: 0 },
            Submission::Shadow { light: 1, batch: 1 },
            Submission::Shadow { light: 1, batch: 2 },
            Submission::Geometry,
            Submission::Composite,
        ]
    );
}

#[test]
fn empty_scene_still_runs_geometry_and_composite() {
    let drawer = ThreeDrawer::new(TextureFormat::Rgba8Unorm, m(6));
    let plan = drawer.render(&vec![], 0);
    assert!(plan.shadow_v.is_empty());
    assert!(plan.geometry.draw_v.is_empty());
    assert!(plan.composite.draw_v.is_empty());
    assert_eq!(plan.geometry.load, PassState::Clear);
    assert_eq!(plan.composite.load, PassState::Accumulate);
    assert_eq!(plan.submission_v(), vec![Submission::Geometry, Submission::Composite]);
}

#[test]
fn light_without_meshes_gets_a_pass_that_only_clears() {
    let drawer = ThreeDrawer::new(TextureFormat::Rgba8Unorm, m(6));
    let plan = drawer.render(&vec![ThreeLook::Light(light(1))], 0);
    assert_eq!(plan.shadow_v.len(), 1);
    assert_eq!(plan.shadow_v[0].batch_v.len(), 1);
    assert_eq!(plan.shadow_v[0].batch_v[0].state, PassState::Clear);
    assert_eq!(plan.shadow_v[0].batch_v[0].draw, None);
    assert_eq!(
        plan.submission_v(),
        vec![Submission::Shadow { light: 0, batch: 0 }, Submission::Geometry, Submission::Composite]
    );
}

#[test]
fn a_frame_is_submitted_in_order_and_ends_ok() {
    let order = vec![Submission::Shadow { light: 0, batch: 0 }, Submission::Geometry, Submission::Composite];
    assert_eq!(
        next_action(&order, 0, SubmitOutcome::Accepted),
        FrameAction::Submit(Submission::Shadow { light: 0, batch: 0 })
    );
    assert_eq!(next_action(&order, 1, SubmitOutcome::Accepted), FrameAction::Submit(Submission::Geometry));
    assert_eq!(next_action(&order, 2, SubmitOutcome::Accepted), FrameAction::Submit(Submission::Composite));
    assert_eq!(next_action(&order, 3, SubmitOutcome::Accepted), FrameAction::Finish(Ok(())));
    assert_eq!(next_action(&order, 9, SubmitOutcome::Accepted), FrameAction::Finish(Ok(())));
    assert_eq!(next_action(&vec![], 0, SubmitOutcome::Accepted), FrameAction::Finish(Ok(())));
}

#[test]
fn a_refused_submission_ends_the_frame_with_an_error() {
    let order = vec![Submission::Geometry, Submission::Composite];
    for done in 0..4 {
        assert_eq!(
            next_action(&order, done, SubmitOutcome::Refused),
            FrameAction::Finish(Err(RenderError::Submission))
        );
    }
}

fn run(plan: &FramePlan, refuse_at: Option<usize>) -> (Vec<Submission>, Result<(), RenderError>) {
    let order = plan.submission_v();
    let mut made = vec![];
    let mut done = 0;
    let mut last = SubmitOutcome::Accepted;
    loop {
        match next_action(&order, done, last) {
            FrameAction::Submit(s) => {
                made.push(s);
                if refuse_at == Some(made.len() - 1) {
                    last = SubmitOutcome::Refused;
                } else {
                    done += 1;
                }
            }
            FrameAction::Finish(r) => return (made, r),
        }
    }
}

#[test]
fn nothing_is_retried_and_nothing_follows_a_refusal() {
    let drawer = ThreeDrawer::new(TextureFormat::Rgba8Unorm, m(6));
    let plan = drawer.render(&scene(), 0);
    let (made, r) = run(&plan, None);
    assert_eq!(made, plan.submission_v());
    assert_eq!(r, Ok(()));
    let (made, r) = run(&plan, Some(3));
    assert_eq!(made, plan.submission_v()[..4].to_vec());
    assert_eq!(r, Err(RenderError::Submission));
}

#[test]
fn colour_of_a_light_changes_no_shadow_pass() {
    let drawer = ThreeDrawer::new(TextureFormat::Rgba8Unorm, m(6));
    let a = scene();
    let mut b = scene();
    b[1].as_light_mut().unwrap().color = Vec4::new(900, 901, 902, 903);
    let plan_a = drawer.render(&a, 0);
    let plan_b = drawer.render(&b, 0);
    assert_eq!(plan_a.shadow_v, plan_b.shadow_v);
    assert_eq!(plan_a.geometry, plan_b.geometry);
    assert_ne!(plan_a.composite, plan_b.composite);
    assert_eq!(plan_b.composite.draw_v[0].light_color, Vec4::new(900, 901, 902, 903));
    assert_eq!(plan_a.composite.draw_v[1], plan_b.composite.draw_v[1]);
}

#[test]
fn resize_replaces_the_gbuffer_and_nothing_else() {
    let mut drawer = ThreeDrawer::new(TextureFormat::Rgba8Unorm, m(6));
    *drawer.view_m_mut() = m(7);
    let before = drawer.render(&scene(), 5);
    let old = drawer.gbuffer();

    assert_eq!(drawer.resize(0, 0), None);
    assert_eq!(drawer.resize(640, 0), None);
    assert_eq!(drawer.resize(0, 480), None);
    assert_eq!(drawer.gbuffer(), old);
    assert_eq!(drawer.render(&scene(), 5), before);

    assert_eq!(drawer.resize(640, 480), Some(old));
    let new = GBuffer {
        color: attachment(640, 480, TextureFormat::Rgba32Float),
        normal: attachment(640, 480, TextureFormat::Rgba32Float),
        depth: attachment(640, 480, TextureFormat::Depth32Float),
    };
    assert_eq!(drawer.gbuffer(), new);
    assert_eq!(*drawer.view_m(), m(7));
    assert_eq!(drawer.validate(), Ok(()));

    let after = drawer.render(&scene(), 5);
    assert_eq!(after.shadow_v, before.shadow_v);
    assert_eq!(after.composite, before.composite);
    assert_eq!(after.geometry.draw_v, before.geometry.draw_v);
    assert_eq!(after.geometry.view_m, before.geometry.view_m);
    assert_eq!(after.geometry.proj_m, before.geometry.proj_m);
    assert_eq!(after.geometry.target, new);
    assert_eq!(after.shadow_v[0].depth, attachment(1024, 1024, TextureFormat::Depth32Float));

    assert_eq!(drawer.resize(1024, 1024), Some(new));
    assert_eq!(drawer.render(&scene(), 5), before);
}

#[test]
fn run_makes_every_submission_once_in_order() {
    let drawer = ThreeDrawer::new(TextureFormat::Rgba8Unorm, m(6));
    let plan = drawer.render(&scene(), 0);
    let made = std::cell::RefCell::new(vec![]);
    let r = plan.run(|s| {
        made.borrow_mut().push(s);
        SubmitOutcome::Accepted
    });
    assert_eq!(r, Ok(()));
    assert_eq!(*made.borrow(), plan.submission_v());
}

#[test]
fn run_stops_at_the_first_refusal() {
    let drawer = ThreeDrawer::new(TextureFormat::Rgba8Unorm, m(6));
    let plan = drawer.render(&scene(), 0);
    for refused in 0..plan.submission_v().len() {
        let made = std::cell::RefCell::new(vec![]);
        let r = plan.run(|s| {
            made.borrow_mut().push(s);
            if made.borrow().len() - 1 == refused {
                SubmitOutcome::Refused
            } else {
                SubmitOutcome::Accepted
            }
        });
        assert_eq!(r, Err(RenderError::Submission));
        assert_eq!(*made.borrow(), plan.submission_v()[..refused + 1].to_vec());
    }
}

#[test]
fn light_space_matrix_reaches_the_shadow_pass_as_given() {
    let drawer = ThreeDrawer::new(TextureFormat::Rgba8Unorm, m(6));
    let a = scene();
    let mut b = scene();
    b[3].as_light_mut().unwrap().matrix = m(500);
    let plan_a = drawer.render(&a, 0);
    let plan_b = drawer.render(&b, 0);
    assert_eq!(plan_a.shadow_v[0], plan_b.shadow_v[0]);
    assert_eq!(plan_b.shadow_v[1].light, m(500));
    assert_ne!(plan_a.shadow_v[1], plan_b.shadow_v[1]);
    assert_eq!(plan_a.composite, plan_b.composite);
}
