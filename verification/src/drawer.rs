//! The orchestrator: it owns the pipelines and the G-buffer and plans each
//! frame as shadow passes, one geometry pass and one composite pass, in that
//! order.
//!
//! A frame is run on the calling thread, submission by submission. There is
//! one G-buffer, so frames follow one another: the geometry pass of a frame is
//! submitted only after the composite pass of the frame before it. A resize
//! changes the renderer and therefore stands between two frames, never inside
//! one.
use vstd::prelude::*;
use crate::body_render::{
    spec_composite_pass, spec_composite_pipeline, BodyRenderer, CompositePass, CompositePassView,
};
use crate::depth::{
    cleared, lemma_no_caster_is_far, shadow_depth, spec_is_shadowed, within_far, Fragment,
};
use crate::err::RenderError;
use crate::light_mapping::{
    spec_shadow_pass, spec_shadow_pipeline, LightMappingBuilder, PassState, ShadowPass,
    ShadowPassView,
};
use crate::math::Mat4;
use crate::pipeline::{DepthStencilState, TextureFormat};
use crate::texture::{DEPTH_FAR, INTERNAL_SIZE};
use crate::three::{bodies_of, lights_of, partition, Body, Light, ThreeLook};
use crate::view_renderer::{
    spec_gbuffer, spec_geometry_pass, spec_geometry_pipeline, GBuffer, GeometryPass,
    GeometryPassView, ViewRenderer,
};

verus! {

/// Everything the GPU is asked to do for one frame.
#[derive(Clone, Debug, PartialEq, Eq)]
pub struct FramePlan {
    /// One shadow pass per light, in the order of the lights.
    pub shadow_v: Vec<ShadowPass>,
    /// The geometry pass.
    pub geometry: GeometryPass,
    /// The composite pass.
    pub composite: CompositePass,
}

/// The plan of a frame as a mathematical value.
pub struct FramePlanView {
    pub shadow_v: Seq<ShadowPassView>,
    pub geometry: GeometryPassView,
    pub composite: CompositePassView,
}

/// The views of a list of shadow passes.
pub open spec fn shadow_views(shadow_v: Seq<ShadowPass>) -> Seq<ShadowPassView> {
    Seq::new(shadow_v.len(), |i: int| shadow_v[i]@)
}

impl View for FramePlan {
    type V = FramePlanView;

    open spec fn view(&self) -> FramePlanView {
        FramePlanView {
            shadow_v: shadow_views(self.shadow_v@),
            geometry: self.geometry@,
            composite: self.composite@,
        }
    }
}

/// The shadow passes of a frame: for each light, in order, its pass over all
/// meshes.
pub open spec fn spec_shadow_passes(light_v: Seq<Light>, body_v: Seq<Body>) -> Seq<ShadowPassView> {
    Seq::new(light_v.len(), |i: int| spec_shadow_pass(light_v[i].matrix, body_v))
}

/// The plan of the frame that shows the scene `look_v` to the camera with
/// view `view_m` and projection `proj_m`, with the G-buffer `gbuffer`.
pub open spec fn spec_frame(
    gbuffer: GBuffer,
    view_m: Mat4,
    proj_m: Mat4,
    look_v: Seq<ThreeLook>,
    ratio: u32,
) -> FramePlanView {
    FramePlanView {
        shadow_v: spec_shadow_passes(lights_of(look_v), bodies_of(look_v)),
        geometry: spec_geometry_pass(gbuffer, view_m, proj_m, bodies_of(look_v)),
        composite: spec_composite_pass(lights_of(look_v), view_m, proj_m, ratio),
    }
}

/// One submission to the GPU queue.
#[derive(Clone, Copy, Debug, PartialEq, Eq, Structural)]
pub enum Submission {
    /// Batch `batch` of the shadow pass of light `light`.
    Shadow { light: usize, batch: usize },
    /// The geometry pass.
    Geometry,
    /// The composite pass.
    Composite,
}

/// The submissions of the shadow passes of the first `n` lights: light by
/// light, and within a light batch by batch.
pub open spec fn spec_shadow_submissions(shadow_v: Seq<ShadowPassView>, n: int) -> Seq<Submission>
    decreases n,
{
    if n <= 0 {
        Seq::empty()
    } else {
        spec_shadow_submissions(shadow_v, n - 1) + Seq::new(
            shadow_v[n - 1].batch_v.len(),
            |j: int| Submission::Shadow { light: (n - 1) as usize, batch: j as usize },
        )
    }
}

/// The submissions of a frame in the order in which they are made: all
/// shadow passes, then the geometry pass, then the composite pass.
pub open spec fn spec_submissions(plan: FramePlanView) -> Seq<Submission> {
    spec_shadow_submissions(plan.shadow_v, plan.shadow_v.len() as int) + seq![
        Submission::Geometry,
        Submission::Composite,
    ]
}

/// The shadow submissions of the first `n` lights are shadow batches of
/// those lights and nothing else.
pub proof fn lemma_shadow_submissions(shadow_v: Seq<ShadowPassView>, n: int)
    requires
        0 <= n <= shadow_v.len() <= usize::MAX,
        forall|i: int| 0 <= i < shadow_v.len() ==> (#[trigger] shadow_v[i]).batch_v.len() <= usize::MAX,
    ensures
        forall|k: int|
            0 <= k < spec_shadow_submissions(shadow_v, n).len() ==> match (
            #[trigger] spec_shadow_submissions(shadow_v, n)[k]) {
                Submission::Shadow { light, batch } => light < n && batch
                    < shadow_v[light as int].batch_v.len(),
                _ => false,
            },
    decreases n,
{
    if n > 0 {
        lemma_shadow_submissions(shadow_v, n - 1);
    }
}

/// In every frame the geometry pass is submitted once, after every shadow
/// batch, and the composite pass once, last of all.
pub proof fn lemma_submission_order(plan: FramePlanView)
    requires
        plan.shadow_v.len() <= usize::MAX,
        forall|i: int|
            0 <= i < plan.shadow_v.len() ==> (#[trigger] plan.shadow_v[i]).batch_v.len()
                <= usize::MAX,
    ensures
        spec_submissions(plan).len() >= 2,
        spec_submissions(plan)[spec_submissions(plan).len() - 2] == Submission::Geometry,
        spec_submissions(plan).last() == Submission::Composite,
        forall|k: int|
            0 <= k < spec_submissions(plan).len() - 2 ==> (#[trigger] spec_submissions(plan)[k])
                is Shadow,
{
    lemma_shadow_submissions(plan.shadow_v, plan.shadow_v.len() as int);
}

impl FramePlan {
    /// The submissions of the frame in the order in which they are made.
    pub fn submission_v(&self) -> (order: Vec<Submission>)
        ensures
            order@ == spec_submissions(self@),
    {
        let mut order: Vec<Submission> = Vec::new();
        let mut i: usize = 0;
        while i < self.shadow_v.len()
            invariant
                i <= self.shadow_v.len(),
                order@ == spec_shadow_submissions(self@.shadow_v, i as int),
            decreases self.shadow_v.len() - i,
        {
            let ghost before = order@;
            let ghost want = Seq::new(
                self@.shadow_v[i as int].batch_v.len(),
                |j: int| Submission::Shadow { light: i, batch: j as usize },
            );
            let pass = &self.shadow_v[i];
            let mut j: usize = 0;
            while j < pass.batch_v.len()
                invariant
                    j <= pass.batch_v.len(),
                    pass.batch_v@.len() == want.len(),
                    want == Seq::new(
                        want.len(),
                        |j: int| Submission::Shadow { light: i, batch: j as usize },
                    ),
                    order@ == before + want.subrange(0, j as int),
                decreases pass.batch_v.len() - j,
            {
                order.push(Submission::Shadow { light: i, batch: j });
                j = j + 1;
            }
            i = i + 1;
        }
        order.push(Submission::Geometry);
        order.push(Submission::Composite);
        order
    }
}

/// What the backend reports of a submission.
#[derive(Clone, Copy, Debug, PartialEq, Eq, Structural)]
pub enum SubmitOutcome {
    /// The batch was accepted.
    Accepted,
    /// The batch was refused.
    Refused,
}

/// What the caller does next in a frame.
#[derive(Clone, Copy, Debug, PartialEq, Eq)]
pub enum FrameAction {
    /// Make this submission and report its outcome.
    Submit(Submission),
    /// The frame is over, with this result.
    Finish(Result<(), RenderError>),
}

/// The next action of a frame of which the first `done` submissions were
/// accepted and of which `last` is the outcome of the latest one.
pub open spec fn spec_next_action(order: Seq<Submission>, done: int, last: SubmitOutcome)
    -> FrameAction {
    if last == SubmitOutcome::Refused {
        FrameAction::Finish(Err(RenderError::Submission))
    } else if 0 <= done < order.len() {
        FrameAction::Submit(order[done])
    } else {
        FrameAction::Finish(Ok(()))
    }
}

/// Decides the next action of a frame.
///
/// `order` is the frame's submissions, `done` the number of them that the
/// backend has accepted, `last` the outcome of the latest submission
/// (`Accepted` before the first). After a refusal the frame ends with
/// `RenderError::Submission`: nothing is submitted again and nothing after it
/// is submitted. Otherwise the submissions are made one by one in order, and
/// the frame ends with `Ok` when all are accepted.
pub fn next_action(order: &Vec<Submission>, done: usize, last: SubmitOutcome) -> (action:
    FrameAction)
    ensures
        action == spec_next_action(order@, done as int, last),
{
    match last {
        SubmitOutcome::Refused => FrameAction::Finish(Err(RenderError::Submission)),
        SubmitOutcome::Accepted => {
            if done < order.len() {
                FrameAction::Submit(order[done])
            } else {
                FrameAction::Finish(Ok(()))
            }
        },
    }
}

/// Whether `submit` accepted the first `n` submissions of `order`.
pub open spec fn accepted_prefix<F: Fn(Submission) -> SubmitOutcome>(
    submit: F,
    order: Seq<Submission>,
    n: int,
) -> bool {
    forall|k: int|
        0 <= k < n ==> call_ensures(submit, (#[trigger] order[k],), SubmitOutcome::Accepted)
}

impl FramePlan {
    /// Runs the frame: hands the submissions to `submit` one by one, in the
    /// order of the frame, each only when the one before it was accepted.
    ///
    /// The frame succeeds when every submission was accepted. At the first
    /// refusal it ends with `RenderError::Submission`: the refused submission is
    /// not made again and none after it is made, so the target holds what the
    /// submissions before it wrote.
    pub fn run<F: Fn(Submission) -> SubmitOutcome>(&self, submit: F) -> (r: Result<
        (),
        RenderError,
    >)
        requires
            forall|s: Submission| call_requires(submit, (s,)),
        ensures
            match r {
                Ok(()) => accepted_prefix(
                    submit,
                    spec_submissions(self@),
                    spec_submissions(self@).len() as int,
                ),
                Err(e) => e == RenderError::Submission && exists|n: int|
                    0 <= n < spec_submissions(self@).len() && accepted_prefix(
                        submit,
                        spec_submissions(self@),
                        n,
                    ) && call_ensures(
                        submit,
                        (#[trigger] spec_submissions(self@)[n],),
                        SubmitOutcome::Refused,
                    ),
            },
    {
        let order = self.submission_v();
        let mut done: usize = 0;
        let mut last = SubmitOutcome::Accepted;
        loop
            invariant
                order@ == spec_submissions(self@),
                done <= order.len(),
                forall|s: Submission| call_requires(submit, (s,)),
                accepted_prefix(submit, order@, done as int),
                last == SubmitOutcome::Refused ==> done < order.len() && call_ensures(
                    submit,
                    (order@[done as int],),
                    SubmitOutcome::Refused,
                ),
            decreases order.len() - done + (if last == SubmitOutcome::Accepted { 1int } else { 0int }),
        {
            match next_action(&order, done, last) {
                FrameAction::Submit(s) => {
                    match submit(s) {
                        SubmitOutcome::Accepted => {
                            done = done + 1;
                        },
                        SubmitOutcome::Refused => {
                            last = SubmitOutcome::Refused;
                        },
                    }
                },
                FrameAction::Finish(r) => {
                    return r;
                },
            }
        }
    }
}

/// The renderer: the three pipelines, the G-buffer and the camera.
pub struct ThreeDrawer {
    light_mapping_builder: LightMappingBuilder,
    body_renderer: BodyRenderer,
    view_renderer: ViewRenderer,
    view_m: Mat4,
    proj_m: Mat4,
}

impl ThreeDrawer {
    /// The camera's view matrix.
    pub closed spec fn spec_view_m(&self) -> Mat4 {
        self.view_m
    }

    /// The camera's projection matrix.
    pub closed spec fn spec_proj_m(&self) -> Mat4 {
        self.proj_m
    }

    /// The G-buffer held now.
    pub closed spec fn spec_gbuffer(&self) -> GBuffer {
        self.view_renderer.spec_gbuffer()
    }

    /// The format of the targets that the renderer composes into.
    pub closed spec fn spec_format(&self) -> TextureFormat {
        self.body_renderer.pipeline_view().targets[0].format
    }

    /// Whether the renderer holds its three pipelines as they were built.
    pub closed spec fn wf(&self) -> bool {
        &&& self.light_mapping_builder.wf()
        &&& self.view_renderer.wf()
        &&& self.body_renderer.pipeline_view() == spec_composite_pipeline(self.spec_format())
    }

    /// Builds the renderer for targets of format `format` and a camera with
    /// projection `proj_m` that stands at the origin and looks down -Z. The
    /// three pipelines are built here and never again.
    pub fn new(format: TextureFormat, proj_m: Mat4) -> (drawer: ThreeDrawer)
        ensures
            drawer.wf(),
            drawer.spec_format() == format,
            drawer.spec_view_m() == Mat4::spec_identity(),
            drawer.spec_proj_m() == proj_m,
            drawer.spec_gbuffer() == spec_gbuffer(INTERNAL_SIZE, INTERNAL_SIZE),
    {
        ThreeDrawer {
            light_mapping_builder: LightMappingBuilder::new(),
            body_renderer: BodyRenderer::new(format),
            view_renderer: ViewRenderer::new(),
            view_m: Mat4::identity(),
            proj_m,
        }
    }

    /// Checks that the renderer's three pipelines can be built, before the
    /// backend creates them. They can, unless the target's format is a depth
    /// format; then the renderer cannot be built.
    pub fn validate(&self) -> (r: Result<(), RenderError>)
        requires
            self.wf(),
        ensures
            !self.spec_format().spec_is_depth() ==> r == Ok::<(), RenderError>(()),
            self.spec_format().spec_is_depth() ==> r == Err::<(), RenderError>(
                RenderError::PipelineBuild,
            ),
    {
        proof {
            let format = self.spec_format();
            if !format.spec_is_depth() {
                lemma_pipelines_valid(format);
            } else {
                lemma_pipelines_valid(TextureFormat::Rgba8Unorm);
            }
        }
        match self.light_mapping_builder.render_pipeline().validate() {
            Ok(()) => {},
            Err(e) => {
                return Err(e);
            },
        }
        match self.view_renderer.render_pipeline().validate() {
            Ok(()) => {},
            Err(e) => {
                return Err(e);
            },
        }
        self.body_renderer.render_pipeline().validate()
    }

    /// The planner of shadow passes, with the shadow pipeline.
    pub fn light_mapping_builder(&self) -> (builder: &LightMappingBuilder)
        ensures
            self.wf() ==> builder.wf(),
    {
        &self.light_mapping_builder
    }

    /// The planner of geometry passes, with the geometry pipeline.
    pub fn view_renderer(&self) -> (renderer: &ViewRenderer)
        ensures
            self.wf() ==> renderer.wf(),
            renderer.spec_gbuffer() == self.spec_gbuffer(),
    {
        &self.view_renderer
    }

    /// The planner of composite passes, with the composite pipeline.
    pub fn body_renderer(&self) -> (renderer: &BodyRenderer)
        ensures
            self.wf() ==> renderer.pipeline_view() == spec_composite_pipeline(self.spec_format()),
    {
        &self.body_renderer
    }

    /// The camera's view matrix.
    pub fn view_m(&self) -> (m: &Mat4)
        ensures
            *m == self.spec_view_m(),
    {
        &self.view_m
    }

    /// The camera's view matrix, for writing. Nothing else of the renderer
    /// changes with it.
    pub fn view_m_mut(&mut self) -> (m: &mut Mat4)
        ensures
            *m == old(self).spec_view_m(),
            final(self).spec_view_m() == *final(m),
            final(self).spec_proj_m() == old(self).spec_proj_m(),
            final(self).spec_gbuffer() == old(self).spec_gbuffer(),
            final(self).spec_format() == old(self).spec_format(),
            final(self).wf() == old(self).wf(),
    {
        &mut self.view_m
    }

    /// The G-buffer held now.
    pub fn gbuffer(&self) -> (gbuffer: GBuffer)
        ensures
            gbuffer == self.spec_gbuffer(),
    {
        self.view_renderer.gbuffer()
    }

    /// Adapts the renderer to a target of `width` by `height` pixels, between
    /// two frames.
    ///
    /// The G-buffer is replaced by one of the new size, and the one held
    /// before is handed back for release: the renderer keeps no second one.
    /// Pipelines, camera and shadow-map size stay as they are. A size with a
    /// zero side is ignored.
    pub fn resize(&mut self, width: u32, height: u32) -> (released: Option<GBuffer>)
        ensures
            final(self).spec_view_m() == old(self).spec_view_m(),
            final(self).spec_proj_m() == old(self).spec_proj_m(),
            final(self).spec_format() == old(self).spec_format(),
            old(self).wf() ==> final(self).wf(),
            width > 0 && height > 0 ==> released == Some(old(self).spec_gbuffer())
                && final(self).spec_gbuffer() == spec_gbuffer(width, height),
            width == 0 || height == 0 ==> released.is_none() && final(self).spec_gbuffer() == old(
                self,
            ).spec_gbuffer(),
    {
        self.view_renderer.resize(width, height)
    }

    /// Plans one frame of the scene `look_v`.
    ///
    /// The scene is split into meshes and lights, each list in the scene's
    /// order. The plan holds one shadow pass per light over all meshes, the
    /// geometry pass over all meshes, and the composite pass with one draw per
    /// light, the draw of each light reading that light's shadow map. `ratio` is
    /// the target's width divided by its height, as a single-precision bit
    /// pattern. Every matrix in the plan is one that the caller gave, bit for
    /// bit.
    pub fn render(&self, look_v: &Vec<ThreeLook>, ratio: u32) -> (plan: FramePlan)
        ensures
            plan@ == spec_frame(
                self.spec_gbuffer(),
                self.spec_view_m(),
                self.spec_proj_m(),
                look_v@,
                ratio,
            ),
    {
        let (body_v, light_v) = partition(look_v);
        let mut shadow_v: Vec<ShadowPass> = Vec::new();
        let ghost want = spec_shadow_passes(light_v@, body_v@);
        let mut i: usize = 0;
        while i < light_v.len()
            invariant
                i <= light_v.len(),
                want == spec_shadow_passes(light_v@, body_v@),
                shadow_views(shadow_v@) == want.subrange(0, i as int),
            decreases light_v.len() - i,
        {
            let light = &light_v[i];
            let pass = self.light_mapping_builder.light_mapping(&light.matrix, &body_v);
            let ghost before = shadow_v@;
            shadow_v.push(pass);
            i = i + 1;
            assert(shadow_views(before).len() == i - 1);
            assert forall|k: int| 0 <= k < i implies shadow_views(shadow_v@)[k] == want[k] by {
                if k < i - 1 {
                    assert(shadow_views(before)[k] == want.subrange(0, i - 1)[k]);
                }
            }
        }
        assert(shadow_views(shadow_v@) =~= want);
        let geometry = self.view_renderer.view_renderer(&self.view_m, &self.proj_m, &body_v);
        let composite = self.body_renderer.body_render(&light_v, &self.view_m, &self.proj_m, ratio);
        FramePlan { shadow_v, geometry, composite }
    }
}

/// In a frame of a scene without meshes, the shadow map of every light is
/// the far plane everywhere, whatever the attachment held before, and no
/// fragment is in shadow of any light unless it lies beyond that light's far
/// plane by more than the bias.
pub proof fn lemma_frame_without_casters(
    init: Seq<u32>,
    state: DepthStencilState,
    gbuffer: GBuffer,
    view_m: Mat4,
    proj_m: Mat4,
    look_v: Seq<ThreeLook>,
    ratio: u32,
    i: int,
)
    requires
        bodies_of(look_v).len() == 0,
        0 <= i < lights_of(look_v).len(),
    ensures
        ({
            let pass = spec_frame(gbuffer, view_m, proj_m, look_v, ratio).shadow_v[i];
            let map = shadow_depth(init, state, pass, Seq::<Seq<Fragment>>::empty());
            &&& map == cleared(INTERNAL_SIZE, INTERNAL_SIZE)
            &&& forall|t: int| 0 <= t < INTERNAL_SIZE * INTERNAL_SIZE ==> #[trigger] map[t] == DEPTH_FAR
            &&& forall|t: int, depth: u32, bias: u32|
                0 <= t < INTERNAL_SIZE * INTERNAL_SIZE && within_far(depth, bias)
                    ==> !#[trigger] spec_is_shadowed(depth, map[t], bias)
        }),
{
    let light = lights_of(look_v)[i];
    lemma_no_caster_is_far(init, state, light.matrix);
}

/// Whether two scene entries are the same mesh, or lights that differ at
/// most in colour.
pub open spec fn same_but_color(a: ThreeLook, b: ThreeLook) -> bool {
    match (a, b) {
        (ThreeLook::Body(x), ThreeLook::Body(y)) => x == y,
        (ThreeLook::Light(x), ThreeLook::Light(y)) => x.view == y.view && x.proj == y.proj
            && x.matrix == y.matrix,
        _ => false,
    }
}

/// Two scenes that differ only in the colours of their lights have the same
/// meshes and as many lights, with the same matrices.
pub proof fn lemma_same_but_color(a: Seq<ThreeLook>, b: Seq<ThreeLook>)
    requires
        a.len() == b.len(),
        forall|k: int| 0 <= k < a.len() ==> same_but_color(#[trigger] a[k], b[k]),
    ensures
        bodies_of(a) == bodies_of(b),
        lights_of(a).len() == lights_of(b).len(),
        forall|i: int|
            0 <= i < lights_of(a).len() ==> (#[trigger] lights_of(a)[i]).view == lights_of(
                b,
            )[i].view && lights_of(a)[i].proj == lights_of(b)[i].proj && lights_of(a)[i].matrix
                == lights_of(b)[i].matrix,
    decreases a.len(),
{
    if a.len() > 0 {
        assert forall|k: int| 0 <= k < a.drop_last().len() implies same_but_color(
            #[trigger] a.drop_last()[k],
            b.drop_last()[k],
        ) by {
            assert(same_but_color(a[k], b[k]));
        }
        lemma_same_but_color(a.drop_last(), b.drop_last());
    }
}

/// Changing only the colour of lights changes no shadow pass and not the
/// geometry pass: a light's shadow map depends on its matrices and on the
/// meshes, not on its colour.
pub proof fn lemma_color_leaves_shadow(
    gbuffer: GBuffer,
    view_m: Mat4,
    proj_m: Mat4,
    a: Seq<ThreeLook>,
    b: Seq<ThreeLook>,
    ratio: u32,
)
    requires
        a.len() == b.len(),
        forall|k: int| 0 <= k < a.len() ==> same_but_color(#[trigger] a[k], b[k]),
    ensures
        spec_frame(gbuffer, view_m, proj_m, a, ratio).shadow_v == spec_frame(
            gbuffer,
            view_m,
            proj_m,
            b,
            ratio,
        ).shadow_v,
        spec_frame(gbuffer, view_m, proj_m, a, ratio).geometry == spec_frame(
            gbuffer,
            view_m,
            proj_m,
            b,
            ratio,
        ).geometry,
{
    lemma_same_but_color(a, b);
    assert(spec_shadow_passes(lights_of(a), bodies_of(a)) =~= spec_shadow_passes(
        lights_of(b),
        bodies_of(b),
    ));
}

/// A resize changes nothing of a frame but the G-buffer that the geometry
/// pass writes: the same scene gives the same shadow passes, the same draws
/// and the same composite pass before and after.
pub proof fn lemma_resize_keeps_frame(
    before: GBuffer,
    after: GBuffer,
    view_m: Mat4,
    proj_m: Mat4,
    look_v: Seq<ThreeLook>,
    ratio: u32,
)
    ensures
        spec_frame(after, view_m, proj_m, look_v, ratio) == (FramePlanView {
            geometry: GeometryPassView {
                target: after,
                ..spec_frame(before, view_m, proj_m, look_v, ratio).geometry
            },
            ..spec_frame(before, view_m, proj_m, look_v, ratio)
        }),
{
}

/// The shadow pipeline and the geometry pipeline read vertices through the
/// same layout, so one mesh serves both passes.
pub proof fn lemma_shared_vertex_layout()
    ensures
        spec_shadow_pipeline().buffers == spec_geometry_pipeline().buffers,
{
}

/// The three pipelines of the renderer can be built, for every colour
/// format of the target.
pub proof fn lemma_pipelines_valid(format: TextureFormat)
    requires
        !format.spec_is_depth(),
    ensures
        spec_shadow_pipeline().valid(),
        spec_geometry_pipeline().valid(),
        spec_composite_pipeline(format).valid(),
{
}

/// The plan of a frame has one shadow pass and one composite draw per light,
/// each with that light's matrices, the draw of each light reads the shadow
/// map of that light's pass, and the scene's meshes are drawn once in every
/// shadow pass and once in the geometry pass. The geometry pass clears the
/// G-buffer; the composite pass loads the target.
pub proof fn lemma_frame_shape(
    gbuffer: GBuffer,
    view_m: Mat4,
    proj_m: Mat4,
    look_v: Seq<ThreeLook>,
    ratio: u32,
)
    ensures
        ({
            let plan = spec_frame(gbuffer, view_m, proj_m, look_v, ratio);
            let light_n = lights_of(look_v).len();
            &&& plan.shadow_v.len() == light_n
            &&& plan.composite.draw_v.len() == light_n
            &&& plan.geometry.draw_v.len() == bodies_of(look_v).len()
            &&& forall|i: int|
                0 <= i < light_n && i <= usize::MAX ==> (#[trigger] plan.composite.draw_v[i]).shadow_index
                    == i
            &&& forall|i: int|
                0 <= i < light_n ==> (#[trigger] plan.shadow_v[i]).light == lights_of(
                    look_v,
                )[i].matrix && plan.composite.draw_v[i].light_v == lights_of(look_v)[i].view
                    && plan.composite.draw_v[i].light_p == lights_of(look_v)[i].proj
            &&& plan.geometry.load == PassState::Clear
            &&& plan.composite.load == PassState::Accumulate
        }),
{
}

} // verus!
