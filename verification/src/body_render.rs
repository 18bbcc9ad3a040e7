//! The composite pass: for each light one full-screen draw that tests every
//! fragment against that light's shadow map and blends the light's
//! contribution into the caller's target.
//!
//! The target is loaded, never cleared, and the blend adds colour and keeps
//! the maximum of alpha: lights accumulate without overwriting one another, and
//! alpha tells lit from unlit pixels.
use vstd::prelude::*;
use crate::binding::{conforms, Resource, TextureRef};
use crate::light_mapping::PassState;
use crate::math::{Mat4, Vec4};
use crate::pipeline::{
    bind_group_layout, spec_bind_group_layout, BindingType, BlendState, ColorTargetState,
    PipelineState, PipelineStateView, PrimitiveTopology, RenderPipelineBuilder, ShaderId,
    TextureFormat,
};
use crate::structs::{Point3Input, QUAD_VERTEX_COUNT};
use crate::three::Light;

verus! {

/// The full-screen draw of one light.
#[derive(Clone, Copy, Debug, PartialEq, Eq, Structural)]
pub struct CompositeDraw {
    /// Position of the light among the frame's lights: the draw samples the
    /// shadow map of the shadow pass at this position, and no other.
    pub shadow_index: usize,
    /// The light's colour.
    pub light_color: Vec4,
    /// The light's view matrix.
    pub light_v: Mat4,
    /// The light's projection matrix.
    pub light_p: Mat4,
    /// Width of the target divided by its height, as a single-precision bit
    /// pattern.
    pub ratio: u32,
    /// Number of vertices drawn: those of the full-screen quad, without an
    /// index buffer.
    pub vertex_count: u32,
}

/// The full-screen draw of the light at position `index`.
pub open spec fn spec_render_light(index: int, light: Light, ratio: u32) -> CompositeDraw {
    CompositeDraw {
        shadow_index: index as usize,
        light_color: light.color,
        light_v: light.view,
        light_p: light.proj,
        ratio,
        vertex_count: QUAD_VERTEX_COUNT,
    }
}

/// Plans the draw of one light within the composite pass: the quad's six
/// vertices, with the light's matrices and colour, the G-buffer and the
/// shadow map of the shadow pass at position `index` bound.
pub fn render_light(index: usize, light: &Light, ratio: u32) -> (draw: CompositeDraw)
    ensures
        draw == spec_render_light(index as int, *light, ratio),
{
    CompositeDraw {
        shadow_index: index,
        light_color: light.color,
        light_v: light.view,
        light_p: light.proj,
        ratio,
        vertex_count: QUAD_VERTEX_COUNT,
    }
}

/// The composite pass of one frame: a single render pass into the caller's
/// target that begins in the state `load`, with one draw per light.
#[derive(Clone, Debug, PartialEq, Eq)]
pub struct CompositePass {
    /// What the pass does to the target before it draws: it loads it as it
    /// is and never clears it, so a pass without lights leaves every pixel as
    /// it was.
    pub load: PassState,
    /// The camera's view matrix.
    pub view_m: Mat4,
    /// The camera's projection matrix.
    pub proj_m: Mat4,
    /// The draws in order, one per light.
    pub draw_v: Vec<CompositeDraw>,
}

/// The composite pass as a mathematical value.
pub struct CompositePassView {
    pub load: PassState,
    pub view_m: Mat4,
    pub proj_m: Mat4,
    pub draw_v: Seq<CompositeDraw>,
}

impl View for CompositePass {
    type V = CompositePassView;

    open spec fn view(&self) -> CompositePassView {
        CompositePassView {
            load: self.load,
            view_m: self.view_m,
            proj_m: self.proj_m,
            draw_v: self.draw_v@,
        }
    }
}

/// The composite pass of the lights `light_v` for the camera with view
/// `view_m` and projection `proj_m`.
pub open spec fn spec_composite_pass(light_v: Seq<Light>, view_m: Mat4, proj_m: Mat4, ratio: u32)
    -> CompositePassView {
    CompositePassView {
        load: PassState::Accumulate,
        view_m,
        proj_m,
        draw_v: Seq::new(light_v.len(), |i: int| spec_render_light(i, light_v[i], ratio)),
    }
}

/// The bindings of the composite shader, by binding number:
/// camera view, camera projection, light view, G-buffer colour, shadow colour,
/// shadow depth, light projection, aspect ratio, G-buffer depth, G-buffer
/// normal, the G-buffer's sampler, light colour.
pub open spec fn spec_composite_bindings() -> Seq<BindingType> {
    seq![
        BindingType::UniformBuffer,
        BindingType::UniformBuffer,
        BindingType::UniformBuffer,
        BindingType::ColorTexture,
        BindingType::ColorTexture,
        BindingType::DepthTexture,
        BindingType::UniformBuffer,
        BindingType::UniformBuffer,
        BindingType::DepthTexture,
        BindingType::ColorTexture,
        BindingType::Sampler,
        BindingType::UniformBuffer,
    ]
}

/// The state of the composite pipeline for a target of format `format`.
pub open spec fn spec_composite_pipeline(format: TextureFormat) -> PipelineStateView {
    PipelineStateView {
        label: Some("Body Render Pipeline"@),
        layout: spec_bind_group_layout(spec_composite_bindings()),
        shader: ShaderId::BodyRender,
        buffers: seq![Point3Input::spec_pos_only_desc()],
        targets: seq![ColorTargetState { format, blend: Some(BlendState::spec_accumulate()) }],
        topology: PrimitiveTopology::TriangleList,
        depth_stencil: None,
    }
}

/// What the draw of a light binds, by binding number. Of all shadow maps it
/// binds those of the light's own shadow pass and no other.
pub open spec fn spec_composite_bind_group(view_m: Mat4, proj_m: Mat4, draw: CompositeDraw) -> Seq<
    Resource,
> {
    seq![
        Resource::Matrix(view_m),
        Resource::Matrix(proj_m),
        Resource::Matrix(draw.light_v),
        Resource::Texture(TextureRef::GBufferColor),
        Resource::Texture(TextureRef::ShadowColor(draw.shadow_index)),
        Resource::Texture(TextureRef::ShadowDepth(draw.shadow_index)),
        Resource::Matrix(draw.light_p),
        Resource::Word(draw.ratio),
        Resource::Texture(TextureRef::GBufferDepth),
        Resource::Texture(TextureRef::GBufferNormal),
        Resource::Sampler,
        Resource::Vector(draw.light_color),
    ]
}

/// The bind group of every composite draw fits the layout of the composite
/// pipeline, whatever the format of the target.
pub proof fn lemma_composite_bind_group_conforms(
    view_m: Mat4,
    proj_m: Mat4,
    draw: CompositeDraw,
    format: TextureFormat,
)
    ensures
        conforms(
            spec_composite_bind_group(view_m, proj_m, draw),
            spec_composite_pipeline(format).layout,
        ),
{
}

impl CompositePass {
    /// What draw `i` binds; `None` past the last draw.
    pub fn bind_group(&self, i: usize) -> (r: Option<Vec<Resource>>)
        ensures
            match r {
                Some(resource_v) => i < self.draw_v@.len() && resource_v@
                    == spec_composite_bind_group(self.view_m, self.proj_m, self.draw_v@[i as int])
                    && conforms(resource_v@, spec_bind_group_layout(spec_composite_bindings())),
                None => i >= self.draw_v@.len(),
            },
    {
        if i >= self.draw_v.len() {
            return None;
        }
        let draw = self.draw_v[i];
        let mut resource_v: Vec<Resource> = Vec::new();
        resource_v.push(Resource::Matrix(self.view_m));
        resource_v.push(Resource::Matrix(self.proj_m));
        resource_v.push(Resource::Matrix(draw.light_v));
        resource_v.push(Resource::Texture(TextureRef::GBufferColor));
        resource_v.push(Resource::Texture(TextureRef::ShadowColor(draw.shadow_index)));
        resource_v.push(Resource::Texture(TextureRef::ShadowDepth(draw.shadow_index)));
        resource_v.push(Resource::Matrix(draw.light_p));
        resource_v.push(Resource::Word(draw.ratio));
        resource_v.push(Resource::Texture(TextureRef::GBufferDepth));
        resource_v.push(Resource::Texture(TextureRef::GBufferNormal));
        resource_v.push(Resource::Sampler);
        resource_v.push(Resource::Vector(draw.light_color));
        Some(resource_v)
    }
}

/// Plans composite passes. It owns the composite pipeline, which is built
/// once for the format of the target.
pub struct BodyRenderer {
    render_pipeline: PipelineState,
}

impl BodyRenderer {
    /// The state of the pipeline that every composite pass uses.
    pub closed spec fn pipeline_view(&self) -> PipelineStateView {
        self.render_pipeline@
    }

    /// Builds the composite pipeline for targets of format `format`: no depth
    /// test, colour added to the target, alpha the maximum of both.
    pub fn new(format: TextureFormat) -> (renderer: BodyRenderer)
        ensures
            renderer.pipeline_view() == spec_composite_pipeline(format),
    {
        let mut types: Vec<BindingType> = Vec::new();
        types.push(BindingType::UniformBuffer);
        types.push(BindingType::UniformBuffer);
        types.push(BindingType::UniformBuffer);
        types.push(BindingType::ColorTexture);
        types.push(BindingType::ColorTexture);
        types.push(BindingType::DepthTexture);
        types.push(BindingType::UniformBuffer);
        types.push(BindingType::UniformBuffer);
        types.push(BindingType::DepthTexture);
        types.push(BindingType::ColorTexture);
        types.push(BindingType::Sampler);
        types.push(BindingType::UniformBuffer);
        assert(types@ =~= spec_composite_bindings());
        let mut buffer_layout_v = Vec::new();
        buffer_layout_v.push(Point3Input::pos_only_desc());
        let render_pipeline = RenderPipelineBuilder::new(
            bind_group_layout(&types),
            ShaderId::BodyRender,
            buffer_layout_v,
            format,
        ).set_name(Some("Body Render Pipeline")).set_blend(Some(BlendState::accumulate())).build();
        assert(render_pipeline@.buffers =~= spec_composite_pipeline(format).buffers);
        assert(render_pipeline@.targets =~= spec_composite_pipeline(format).targets);
        BodyRenderer { render_pipeline }
    }

    /// The composite pipeline.
    pub fn render_pipeline(&self) -> (pipeline: &PipelineState)
        ensures
            pipeline@ == self.pipeline_view(),
    {
        &self.render_pipeline
    }

    /// Plans the composite pass of one frame: into the target, loaded as it
    /// is, one full-screen draw per light in the order of `light_v`, the draw
    /// of the light at position `i` reading the shadow map of the shadow pass
    /// at position `i`. All matrices reach the shader as they are given.
    pub fn body_render(&self, light_v: &Vec<Light>, view_m: &Mat4, proj_m: &Mat4, ratio: u32) -> (pass:
        CompositePass)
        ensures
            pass@ == spec_composite_pass(light_v@, *view_m, *proj_m, ratio),
    {
        let mut draw_v: Vec<CompositeDraw> = Vec::new();
        let ghost want = spec_composite_pass(light_v@, *view_m, *proj_m, ratio).draw_v;
        let mut i: usize = 0;
        while i < light_v.len()
            invariant
                i <= light_v.len(),
                want == Seq::new(light_v@.len(), |i: int| spec_render_light(i, light_v@[i], ratio)),
                draw_v@ == want.subrange(0, i as int),
            decreases light_v.len() - i,
        {
            draw_v.push(render_light(i, &light_v[i], ratio));
            i = i + 1;
        }
        assert(draw_v@ =~= want);
        CompositePass { load: PassState::Accumulate, view_m: *view_m, proj_m: *proj_m, draw_v }
    }
}

} // verus!
