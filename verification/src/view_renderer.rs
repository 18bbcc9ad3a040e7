//! The geometry pass: all meshes drawn once from the camera into the
//! G-buffer.
//!
//! The G-buffer is persistent: its three textures belong to the renderer and
//! are replaced only by a resize. The pass knows nothing of lights and runs
//! once per frame however many lights there are.
use vstd::prelude::*;
use crate::binding::{conforms, Resource};
use crate::light_mapping::{draw_of, spec_draw, Draw, PassState};
use crate::math::Mat4;
use crate::pipeline::{
    bind_group_layout, spec_bind_group_layout, BindingType, BlendState, ColorTargetState,
    CompareFunction, DepthStencilState, PipelineState, PipelineStateView, PrimitiveTopology,
    RenderPipelineBuilder, ShaderId, TextureFormat,
};
use crate::structs::Point3Input;
use crate::texture::{attachment, spec_attachment, TextureDescriptor, INTERNAL_SIZE};
use crate::three::Body;

verus! {

/// The camera's view of the scene's surfaces: colour, surface normal and
/// depth, one texel per pixel, all of one size.
#[derive(Clone, Copy, Debug, PartialEq, Eq, Structural)]
pub struct GBuffer {
    pub color: TextureDescriptor,
    pub normal: TextureDescriptor,
    pub depth: TextureDescriptor,
}

/// The G-buffer of `width` by `height` texels.
pub open spec fn spec_gbuffer(width: u32, height: u32) -> GBuffer {
    GBuffer {
        color: spec_attachment(width, height, TextureFormat::Rgba32Float),
        normal: spec_attachment(width, height, TextureFormat::Rgba32Float),
        depth: spec_attachment(width, height, TextureFormat::Depth32Float),
    }
}

/// The geometry pass of one frame: a single render pass that begins in the
/// state `load` and then draws each mesh with one draw call.
#[derive(Clone, Debug, PartialEq, Eq)]
pub struct GeometryPass {
    /// The G-buffer that the pass writes.
    pub target: GBuffer,
    /// What the pass does to the G-buffer before it draws, once: it clears
    /// colour and normal to transparent and depth to the far plane, so that
    /// nothing of the frame before remains.
    pub load: PassState,
    /// The camera's view matrix.
    pub view_m: Mat4,
    /// The camera's projection matrix.
    pub proj_m: Mat4,
    /// The draw calls in order.
    pub draw_v: Vec<Draw>,
}

/// The geometry pass as a mathematical value.
pub struct GeometryPassView {
    pub target: GBuffer,
    pub load: PassState,
    pub view_m: Mat4,
    pub proj_m: Mat4,
    pub draw_v: Seq<Draw>,
}

impl View for GeometryPass {
    type V = GeometryPassView;

    open spec fn view(&self) -> GeometryPassView {
        GeometryPassView {
            target: self.target,
            load: self.load,
            view_m: self.view_m,
            proj_m: self.proj_m,
            draw_v: self.draw_v@,
        }
    }
}

/// The geometry pass into `target` of the meshes `body_v` as the camera with
/// view `view_m` and projection `proj_m` sees them.
pub open spec fn spec_geometry_pass(target: GBuffer, view_m: Mat4, proj_m: Mat4, body_v: Seq<Body>)
    -> GeometryPassView {
    GeometryPassView {
        target,
        load: PassState::Clear,
        view_m,
        proj_m,
        draw_v: Seq::new(body_v.len(), |i: int| spec_draw(body_v[i])),
    }
}

/// The bindings of the geometry shader: the camera's view, the camera's
/// projection and the mesh's model transform.
pub open spec fn spec_geometry_bindings() -> Seq<BindingType> {
    seq![BindingType::UniformBuffer, BindingType::UniformBuffer, BindingType::UniformBuffer]
}

/// The state of the geometry pipeline.
pub open spec fn spec_geometry_pipeline() -> PipelineStateView {
    PipelineStateView {
        label: Some("View Render Pipeline"@),
        layout: spec_bind_group_layout(spec_geometry_bindings()),
        shader: ShaderId::ViewRenderer,
        buffers: seq![Point3Input::spec_desc()],
        targets: seq![
            ColorTargetState {
                format: TextureFormat::Rgba32Float,
                blend: Some(BlendState::spec_replace()),
            },
            ColorTargetState {
                format: TextureFormat::Rgba32Float,
                blend: Some(BlendState::spec_replace()),
            },
        ],
        topology: PrimitiveTopology::TriangleList,
        depth_stencil: Some(
            DepthStencilState {
                format: TextureFormat::Depth32Float,
                depth_write_enabled: true,
                depth_compare: CompareFunction::Less,
            },
        ),
    }
}

/// What a draw of the geometry pass binds, by binding number: the camera's
/// view, the camera's projection, the mesh's model transform.
pub open spec fn spec_geometry_bind_group(view_m: Mat4, proj_m: Mat4, draw: Draw) -> Seq<Resource> {
    seq![Resource::Matrix(view_m), Resource::Matrix(proj_m), Resource::Matrix(draw.model_m)]
}

/// The bind group of every geometry draw fits the layout of the geometry
/// pipeline.
pub proof fn lemma_geometry_bind_group_conforms(view_m: Mat4, proj_m: Mat4, draw: Draw)
    ensures
        conforms(spec_geometry_bind_group(view_m, proj_m, draw), spec_geometry_pipeline().layout),
{
}

impl GeometryPass {
    /// What draw `i` binds; `None` past the last draw.
    pub fn bind_group(&self, i: usize) -> (r: Option<Vec<Resource>>)
        ensures
            match r {
                Some(resource_v) => i < self.draw_v@.len() && resource_v@
                    == spec_geometry_bind_group(self.view_m, self.proj_m, self.draw_v@[i as int])
                    && conforms(resource_v@, spec_geometry_pipeline().layout),
                None => i >= self.draw_v@.len(),
            },
    {
        if i >= self.draw_v.len() {
            return None;
        }
        let draw = self.draw_v[i];
        let mut resource_v: Vec<Resource> = Vec::new();
        resource_v.push(Resource::Matrix(self.view_m));
        resource_v.push(Resource::Matrix(self.proj_m));
        resource_v.push(Resource::Matrix(draw.model_m));
        Some(resource_v)
    }
}

/// Plans geometry passes. It owns the geometry pipeline, which is built
/// once, and the G-buffer.
pub struct ViewRenderer {
    render_pipeline: PipelineState,
    gbuffer: GBuffer,
}

impl ViewRenderer {
    /// The state of the pipeline that every geometry pass uses.
    pub closed spec fn pipeline_view(&self) -> PipelineStateView {
        self.render_pipeline@
    }

    /// The G-buffer that the renderer holds now.
    pub closed spec fn spec_gbuffer(&self) -> GBuffer {
        self.gbuffer
    }

    /// Whether the renderer holds the geometry pipeline and a G-buffer whose
    /// three textures have one size.
    pub open spec fn wf(&self) -> bool {
        &&& self.pipeline_view() == spec_geometry_pipeline()
        &&& self.spec_gbuffer() == spec_gbuffer(
            self.spec_gbuffer().color.width,
            self.spec_gbuffer().color.height,
        )
    }

    /// Builds the geometry pipeline (depth test less, with depth writes, two
    /// colour targets for colour and normal) and describes a G-buffer of the
    /// internal size.
    pub fn new() -> (renderer: ViewRenderer)
        ensures
            renderer.wf(),
            renderer.spec_gbuffer() == spec_gbuffer(INTERNAL_SIZE, INTERNAL_SIZE),
    {
        let mut types: Vec<BindingType> = Vec::new();
        types.push(BindingType::UniformBuffer);
        types.push(BindingType::UniformBuffer);
        types.push(BindingType::UniformBuffer);
        assert(types@ =~= spec_geometry_bindings());
        let mut buffer_layout_v = Vec::new();
        buffer_layout_v.push(Point3Input::desc());
        let render_pipeline = RenderPipelineBuilder::new(
            bind_group_layout(&types),
            ShaderId::ViewRenderer,
            buffer_layout_v,
            TextureFormat::Rgba32Float,
        ).add_target(TextureFormat::Rgba32Float).set_name(
            Some("View Render Pipeline"),
        ).set_depth_stencil(
            Some(
                DepthStencilState {
                    format: TextureFormat::Depth32Float,
                    depth_write_enabled: true,
                    depth_compare: CompareFunction::Less,
                },
            ),
        ).build();
        assert(render_pipeline@.buffers =~= spec_geometry_pipeline().buffers);
        assert(render_pipeline@.targets =~= spec_geometry_pipeline().targets);
        ViewRenderer {
            render_pipeline,
            gbuffer: GBuffer {
                color: attachment(INTERNAL_SIZE, INTERNAL_SIZE, TextureFormat::Rgba32Float),
                normal: attachment(INTERNAL_SIZE, INTERNAL_SIZE, TextureFormat::Rgba32Float),
                depth: attachment(INTERNAL_SIZE, INTERNAL_SIZE, TextureFormat::Depth32Float),
            },
        }
    }

    /// The geometry pipeline.
    pub fn render_pipeline(&self) -> (pipeline: &PipelineState)
        ensures
            pipeline@ == self.pipeline_view(),
    {
        &self.render_pipeline
    }

    /// The G-buffer held now.
    pub fn gbuffer(&self) -> (gbuffer: GBuffer)
        ensures
            gbuffer == self.spec_gbuffer(),
    {
        self.gbuffer
    }

    /// Replaces the G-buffer by one of `width` by `height` texels and hands
    /// back the one held before, which the caller releases. The pipeline stays
    /// as it is. A size with a zero side is ignored: nothing changes and nothing
    /// is handed back.
    pub fn resize(&mut self, width: u32, height: u32) -> (released: Option<GBuffer>)
        ensures
            final(self).pipeline_view() == old(self).pipeline_view(),
            width > 0 && height > 0 ==> released == Some(old(self).spec_gbuffer())
                && final(self).spec_gbuffer() == spec_gbuffer(width, height),
            width == 0 || height == 0 ==> released.is_none() && final(self).spec_gbuffer() == old(
                self,
            ).spec_gbuffer(),
            old(self).wf() ==> final(self).wf(),
    {
        if width > 0 && height > 0 {
            let released = self.gbuffer;
            self.gbuffer = GBuffer {
                color: attachment(width, height, TextureFormat::Rgba32Float),
                normal: attachment(width, height, TextureFormat::Rgba32Float),
                depth: attachment(width, height, TextureFormat::Depth32Float),
            };
            Some(released)
        } else {
            None
        }
    }

    /// Plans the geometry pass of one frame: into the G-buffer held now,
    /// cleared once at the start of the pass, all meshes in the order of
    /// `body_v`, one draw call each, under the camera's matrices as they are
    /// given. With no mesh the pass still clears.
    pub fn view_renderer(&self, view_m: &Mat4, proj_m: &Mat4, body_v: &Vec<Body>) -> (pass:
        GeometryPass)
        ensures
            pass@ == spec_geometry_pass(self.spec_gbuffer(), *view_m, *proj_m, body_v@),
    {
        let mut draw_v: Vec<Draw> = Vec::new();
        let mut i: usize = 0;
        let ghost want = spec_geometry_pass(self.spec_gbuffer(), *view_m, *proj_m, body_v@).draw_v;
        while i < body_v.len()
            invariant
                i <= body_v.len(),
                want == Seq::new(body_v@.len(), |i: int| spec_draw(body_v@[i])),
                draw_v@ == want.subrange(0, i as int),
            decreases body_v.len() - i,
        {
            draw_v.push(draw_of(&body_v[i]));
            i = i + 1;
        }
        assert(draw_v@ =~= want);
        GeometryPass {
            target: self.gbuffer,
            load: PassState::Clear,
            view_m: *view_m,
            proj_m: *proj_m,
            draw_v,
        }
    }
}

} // verus!
