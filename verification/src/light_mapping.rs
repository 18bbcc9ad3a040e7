//! The shadow pass: all meshes drawn into one light's depth buffer, in light
//! space.
//!
//! Each mesh is its own command batch with one draw call. The first batch
//! clears the two attachments, every later one loads them, so the depth test
//! (less-or-equal, writing) leaves at each texel the nearest surface to the
//! light. One batch per mesh costs throughput and keeps the bookkeeping simple:
//! meshes are not merged into fewer batches.
//!
//! Shadow maps live for one frame. Every pass allocates its own colour and
//! depth texture, whatever lights the frame before had, and a caller must not
//! take the shadow map of one frame for that of the next. This costs two
//! allocations per light and frame and keeps a changing set of lights simple.
use vstd::prelude::*;
use crate::binding::{conforms, Resource};
use crate::math::Mat4;
use crate::pipeline::{
    bind_group_layout, spec_bind_group_layout, BindingType, BlendState, ColorTargetState,
    CompareFunction, DepthStencilState, PipelineState, PipelineStateView, PrimitiveTopology,
    RenderPipelineBuilder, ShaderId, TextureFormat,
};
use crate::structs::Point3Input;
use crate::texture::{attachment, spec_attachment, TextureDescriptor, INTERNAL_SIZE};
use crate::three::{spec_vertex_count, Body, VertexBuffer};

verus! {

/// What a render pass does to its attachments before it draws.
#[derive(Clone, Copy, Debug, PartialEq, Eq, Structural)]
pub enum PassState {
    /// Every colour attachment is cleared to transparent and the depth
    /// attachment, if there is one, to the far plane.
    Clear,
    /// Every attachment is loaded as it was left: nothing is cleared.
    Accumulate,
}

/// The state of the batch at position `index` of a pass: the first clears,
/// all others accumulate.
pub open spec fn spec_pass_state(index: int) -> PassState {
    if index == 0 {
        PassState::Clear
    } else {
        PassState::Accumulate
    }
}

/// The state of the batch at position `index` of a pass.
pub fn pass_state(index: usize) -> (state: PassState)
    ensures
        state == spec_pass_state(index as int),
{
    if index == 0 {
        PassState::Clear
    } else {
        PassState::Accumulate
    }
}

/// One draw call: a whole vertex buffer under a model transform.
#[derive(Clone, Copy, Debug, PartialEq, Eq, Structural)]
pub struct Draw {
    pub model_m: Mat4,
    pub buf: VertexBuffer,
    pub vertex_count: u32,
}

/// The draw call of a mesh.
pub open spec fn spec_draw(body: Body) -> Draw {
    Draw { model_m: body.model_m, buf: body.buf, vertex_count: spec_vertex_count(body.buf.size) }
}

/// The draw call of a mesh: all vertices of its buffer, one instance, under
/// the mesh's own transform.
pub fn draw_of(body: &Body) -> (draw: Draw)
    ensures
        draw == spec_draw(*body),
{
    Draw { model_m: body.model_m, buf: body.buf, vertex_count: body.buf.vertex_count() }
}

/// One command batch of a shadow pass: a render pass of its own, submitted
/// by itself.
#[derive(Clone, Copy, Debug, PartialEq, Eq, Structural)]
pub struct ShadowBatch {
    pub state: PassState,
    /// The mesh drawn; `None` in the batch that only clears.
    pub draw: Option<Draw>,
}

/// The batches of a shadow pass over `body_v`: one per mesh in the order
/// given, the first clearing; over no mesh at all, one batch that clears and
/// draws nothing.
pub open spec fn spec_shadow_batches(body_v: Seq<Body>) -> Seq<ShadowBatch> {
    if body_v.len() == 0 {
        seq![ShadowBatch { state: PassState::Clear, draw: None }]
    } else {
        Seq::new(
            body_v.len(),
            |i: int| ShadowBatch { state: spec_pass_state(i), draw: Some(spec_draw(body_v[i])) },
        )
    }
}

/// One light's shadow pass.
#[derive(Clone, Debug, PartialEq, Eq)]
pub struct ShadowPass {
    /// The colour attachment, allocated for this pass.
    pub color: TextureDescriptor,
    /// The depth attachment, allocated for this pass: the shadow map.
    pub depth: TextureDescriptor,
    /// The light-space matrix.
    pub light: Mat4,
    /// The batches in the order of submission.
    pub batch_v: Vec<ShadowBatch>,
}

/// One light's shadow pass as a mathematical value.
pub struct ShadowPassView {
    pub color: TextureDescriptor,
    pub depth: TextureDescriptor,
    pub light: Mat4,
    pub batch_v: Seq<ShadowBatch>,
}

impl View for ShadowPass {
    type V = ShadowPassView;

    open spec fn view(&self) -> ShadowPassView {
        ShadowPassView {
            color: self.color,
            depth: self.depth,
            light: self.light,
            batch_v: self.batch_v@,
        }
    }
}

/// The shadow pass of the light with light-space matrix `light` over the
/// meshes `body_v`.
pub open spec fn spec_shadow_pass(light: Mat4, body_v: Seq<Body>) -> ShadowPassView {
    ShadowPassView {
        color: spec_attachment(INTERNAL_SIZE, INTERNAL_SIZE, TextureFormat::Rgba32Float),
        depth: spec_attachment(INTERNAL_SIZE, INTERNAL_SIZE, TextureFormat::Depth32Float),
        light,
        batch_v: spec_shadow_batches(body_v),
    }
}

/// The bindings of the shadow shader: the light-space matrix at binding 0
/// and the mesh's model transform at binding 1.
pub open spec fn spec_shadow_bindings() -> Seq<BindingType> {
    seq![BindingType::UniformBuffer, BindingType::UniformBuffer]
}

/// The state of the shadow pipeline.
pub open spec fn spec_shadow_pipeline() -> PipelineStateView {
    PipelineStateView {
        label: Some("Light Mapping Pipeline"@),
        layout: spec_bind_group_layout(spec_shadow_bindings()),
        shader: ShaderId::LightMapping,
        buffers: seq![Point3Input::spec_desc()],
        targets: seq![
            ColorTargetState {
                format: TextureFormat::Rgba32Float,
                blend: Some(BlendState::spec_replace()),
            },
        ],
        topology: PrimitiveTopology::TriangleList,
        depth_stencil: Some(
            DepthStencilState {
                format: TextureFormat::Depth32Float,
                depth_write_enabled: true,
                depth_compare: CompareFunction::LessEqual,
            },
        ),
    }
}

/// Plans shadow passes. It owns the shadow pipeline, which is built once.
pub struct LightMappingBuilder {
    render_pipeline: PipelineState,
}

impl LightMappingBuilder {
    /// The state of the pipeline that every shadow pass uses.
    pub closed spec fn pipeline_view(&self) -> PipelineStateView {
        self.render_pipeline@
    }

    /// Whether the builder holds the shadow pipeline.
    pub open spec fn wf(&self) -> bool {
        self.pipeline_view() == spec_shadow_pipeline()
    }

    /// Builds the shadow pipeline: depth test less-or-equal with depth
    /// writes, into a depth attachment of 32-bit floats.
    pub fn new() -> (builder: LightMappingBuilder)
        ensures
            builder.wf(),
    {
        let mut types: Vec<BindingType> = Vec::new();
        types.push(BindingType::UniformBuffer);
        types.push(BindingType::UniformBuffer);
        assert(types@ =~= spec_shadow_bindings());
        let mut buffer_layout_v = Vec::new();
        buffer_layout_v.push(Point3Input::desc());
        let render_pipeline = RenderPipelineBuilder::new(
            bind_group_layout(&types),
            ShaderId::LightMapping,
            buffer_layout_v,
            TextureFormat::Rgba32Float,
        ).set_name(Some("Light Mapping Pipeline")).set_depth_stencil(
            Some(
                DepthStencilState {
                    format: TextureFormat::Depth32Float,
                    depth_write_enabled: true,
                    depth_compare: CompareFunction::LessEqual,
                },
            ),
        ).build();
        assert(render_pipeline@.buffers =~= spec_shadow_pipeline().buffers);
        assert(render_pipeline@.targets =~= spec_shadow_pipeline().targets);
        LightMappingBuilder { render_pipeline }
    }

    /// The shadow pipeline.
    pub fn render_pipeline(&self) -> (pipeline: &PipelineState)
        ensures
            pipeline@ == self.pipeline_view(),
    {
        &self.render_pipeline
    }

    /// Plans the shadow pass of one light over all meshes.
    ///
    /// The pass allocates a colour and a depth texture of the fixed shadow-map
    /// size, then submits one batch per mesh in the order of `body_v`. The
    /// batch of mesh 0 clears colour to transparent and depth to the far plane;
    /// each later batch loads both. With no mesh the pass is a single batch
    /// that clears and draws nothing, so the depth buffer is the far plane
    /// everywhere. `light` is the light-space matrix; it reaches the shader as
    /// it is given.
    pub fn light_mapping(&self, light: &Mat4, body_v: &Vec<Body>) -> (pass: ShadowPass)
        ensures
            pass@ == spec_shadow_pass(*light, body_v@),
    {
        let mut batch_v: Vec<ShadowBatch> = Vec::new();
        if body_v.len() == 0 {
            batch_v.push(ShadowBatch { state: PassState::Clear, draw: None });
        } else {
            let mut i: usize = 0;
            while i < body_v.len()
                invariant
                    i <= body_v.len(),
                    body_v.len() > 0,
                    batch_v@ == spec_shadow_batches(body_v@).subrange(0, i as int),
                decreases body_v.len() - i,
            {
                batch_v.push(
                    ShadowBatch { state: pass_state(i), draw: Some(draw_of(&body_v[i])) },
                );
                i = i + 1;
            }
            assert(batch_v@ =~= spec_shadow_batches(body_v@));
        }
        ShadowPass {
            color: attachment(INTERNAL_SIZE, INTERNAL_SIZE, TextureFormat::Rgba32Float),
            depth: attachment(INTERNAL_SIZE, INTERNAL_SIZE, TextureFormat::Depth32Float),
            light: *light,
            batch_v,
        }
    }
}

/// What a draw of the shadow pass binds, by binding number: the light-space
/// matrix, the mesh's model transform.
pub open spec fn spec_shadow_bind_group(light: Mat4, draw: Draw) -> Seq<Resource> {
    seq![Resource::Matrix(light), Resource::Matrix(draw.model_m)]
}

/// The bind group of every shadow draw fits the layout of the shadow
/// pipeline.
pub proof fn lemma_shadow_bind_group_conforms(light: Mat4, draw: Draw)
    ensures
        conforms(spec_shadow_bind_group(light, draw), spec_shadow_pipeline().layout),
{
}

impl ShadowPass {
    /// What the draw of batch `batch` binds; `None` for a batch that draws
    /// nothing and for a position past the last batch.
    pub fn bind_group(&self, batch: usize) -> (r: Option<Vec<Resource>>)
        ensures
            match r {
                Some(resource_v) => batch < self.batch_v@.len() && self.batch_v@[batch as int].draw
                    is Some && resource_v@ == spec_shadow_bind_group(
                    self.light,
                    self.batch_v@[batch as int].draw->Some_0,
                ) && conforms(resource_v@, spec_shadow_pipeline().layout),
                None => batch >= self.batch_v@.len() || self.batch_v@[batch as int].draw is None,
            },
    {
        if batch >= self.batch_v.len() {
            return None;
        }
        match self.batch_v[batch].draw {
            Some(draw) => {
                let mut resource_v: Vec<Resource> = Vec::new();
                resource_v.push(Resource::Matrix(self.light));
                resource_v.push(Resource::Matrix(draw.model_m));
                Some(resource_v)
            },
            None => None,
        }
    }
}

/// In every shadow pass the first batch clears and no other batch does, and
/// the meshes are drawn once each in the order given.
pub proof fn lemma_shadow_batches(body_v: Seq<Body>)
    ensures
        spec_shadow_batches(body_v).len() >= 1,
        spec_shadow_batches(body_v)[0].state == PassState::Clear,
        forall|i: int|
            1 <= i < spec_shadow_batches(body_v).len() ==> (#[trigger] spec_shadow_batches(
                body_v,
            )[i]).state == PassState::Accumulate,
        body_v.len() == 0 ==> spec_shadow_batches(body_v).len() == 1 && spec_shadow_batches(
            body_v,
        )[0].draw.is_none(),
        body_v.len() > 0 ==> spec_shadow_batches(body_v).len() == body_v.len(),
        forall|i: int|
            0 <= i < body_v.len() ==> (#[trigger] spec_shadow_batches(body_v)[i]).draw == Some(
                spec_draw(body_v[i]),
            ),
{
}

} // verus!
