//! The pipeline builder: the fixed-function state of a render pipeline as
//! plain data, built once for each kind of pass.
//!
//! A `PipelineState` says everything that the GPU needs to create the
//! pipeline: shader, vertex layouts, colour targets with their blending, depth
//! test, primitive topology and the resources that the shader binds. Building
//! one has no effect but the value it returns.
use vstd::prelude::*;
use crate::err::RenderError;
use crate::structs::{VertexAttribute, VertexBufferLayout, VertexBufferLayoutView};

verus! {

/// Name of the vertex stage's entry point in every shader of the renderer.
pub const VERTEX_ENTRY_POINT: &'static str = "vs_main";

/// Name of the fragment stage's entry point in every shader of the renderer.
pub const FRAGMENT_ENTRY_POINT: &'static str = "fs_main";

/// The texel formats that the renderer draws into or samples.
#[derive(Clone, Copy, Debug, PartialEq, Eq, Structural)]
pub enum TextureFormat {
    Rgba8Unorm,
    Rgba8UnormSrgb,
    Bgra8Unorm,
    Bgra8UnormSrgb,
    Rgba32Float,
    Depth32Float,
}

impl TextureFormat {
    /// Whether the format stores colour in the sRGB encoding.
    pub open spec fn spec_is_srgb(self) -> bool {
        self == TextureFormat::Rgba8UnormSrgb || self == TextureFormat::Bgra8UnormSrgb
    }

    /// Whether the format stores colour in the sRGB encoding.
    pub fn is_srgb(&self) -> (b: bool)
        ensures
            b == self.spec_is_srgb(),
    {
        match self {
            TextureFormat::Rgba8UnormSrgb => true,
            TextureFormat::Bgra8UnormSrgb => true,
            _ => false,
        }
    }

    /// Whether the format is a depth format.
    pub open spec fn spec_is_depth(self) -> bool {
        self == TextureFormat::Depth32Float
    }

    /// Whether the format is a depth format.
    pub fn is_depth(&self) -> (b: bool)
        ensures
            b == self.spec_is_depth(),
    {
        match self {
            TextureFormat::Depth32Float => true,
            _ => false,
        }
    }

    /// Size of one texel in bytes.
    pub open spec fn spec_texel_size(self) -> u32 {
        match self {
            TextureFormat::Rgba32Float => 16,
            _ => 4,
        }
    }

    /// Size of one texel in bytes.
    pub fn texel_size(&self) -> (n: u32)
        ensures
            n == self.spec_texel_size(),
    {
        match self {
            TextureFormat::Rgba32Float => 16,
            _ => 4,
        }
    }
}

/// The comparison of a depth test: a fragment passes when its depth stands
/// in this relation to the depth already stored.
#[derive(Clone, Copy, Debug, PartialEq, Eq, Structural)]
pub enum CompareFunction {
    Never,
    Less,
    Equal,
    LessEqual,
    Greater,
    NotEqual,
    GreaterEqual,
    Always,
}

/// A factor by which a blend multiplies the source or the destination.
#[derive(Clone, Copy, Debug, PartialEq, Eq, Structural)]
pub enum BlendFactor {
    Zero,
    One,
    SrcAlpha,
    OneMinusSrcAlpha,
    DstAlpha,
    OneMinusDstAlpha,
}

/// How a blend combines the weighted source and destination.
#[derive(Clone, Copy, Debug, PartialEq, Eq, Structural)]
pub enum BlendOperation {
    Add,
    Subtract,
    ReverseSubtract,
    Min,
    Max,
}

/// The blend of the colour channels or of the alpha channel.
#[derive(Clone, Copy, Debug, PartialEq, Eq, Structural)]
pub struct BlendComponent {
    pub src_factor: BlendFactor,
    pub dst_factor: BlendFactor,
    pub operation: BlendOperation,
}

/// The blend of a colour target.
#[derive(Clone, Copy, Debug, PartialEq, Eq, Structural)]
pub struct BlendState {
    pub color: BlendComponent,
    pub alpha: BlendComponent,
}

impl BlendState {
    /// The blend that overwrites the destination with the source.
    pub open spec fn spec_replace() -> BlendState {
        BlendState {
            color: BlendComponent {
                src_factor: BlendFactor::One,
                dst_factor: BlendFactor::Zero,
                operation: BlendOperation::Add,
            },
            alpha: BlendComponent {
                src_factor: BlendFactor::One,
                dst_factor: BlendFactor::Zero,
                operation: BlendOperation::Add,
            },
        }
    }

    /// The blend that overwrites the destination with the source.
    pub fn replace() -> (blend: BlendState)
        ensures
            blend == BlendState::spec_replace(),
    {
        BlendState {
            color: BlendComponent {
                src_factor: BlendFactor::One,
                dst_factor: BlendFactor::Zero,
                operation: BlendOperation::Add,
            },
            alpha: BlendComponent {
                src_factor: BlendFactor::One,
                dst_factor: BlendFactor::Zero,
                operation: BlendOperation::Add,
            },
        }
    }

    /// The blend by which lights accumulate: the colour of a draw is added,
    /// unscaled, to what earlier lights left, unscaled; alpha becomes the larger
    /// of the two values.
    pub open spec fn spec_accumulate() -> BlendState {
        BlendState {
            color: BlendComponent {
                src_factor: BlendFactor::One,
                dst_factor: BlendFactor::One,
                operation: BlendOperation::Add,
            },
            alpha: BlendComponent {
                src_factor: BlendFactor::One,
                dst_factor: BlendFactor::One,
                operation: BlendOperation::Max,
            },
        }
    }

    /// The blend by which lights accumulate: colour is source plus
    /// destination, alpha is the maximum of source and destination. No draw
    /// scales down or overwrites what an earlier draw left.
    pub fn accumulate() -> (blend: BlendState)
        ensures
            blend == BlendState::spec_accumulate(),
    {
        BlendState {
            color: BlendComponent {
                src_factor: BlendFactor::One,
                dst_factor: BlendFactor::One,
                operation: BlendOperation::Add,
            },
            alpha: BlendComponent {
                src_factor: BlendFactor::One,
                dst_factor: BlendFactor::One,
                operation: BlendOperation::Max,
            },
        }
    }
}

/// How vertices are assembled into primitives.
#[derive(Clone, Copy, Debug, PartialEq, Eq, Structural)]
pub enum PrimitiveTopology {
    PointList,
    LineList,
    LineStrip,
    TriangleList,
    TriangleStrip,
}

/// The depth test of a pipeline. Stencil and depth bias are left at their
/// defaults (off).
#[derive(Clone, Copy, Debug, PartialEq, Eq, Structural)]
pub struct DepthStencilState {
    pub format: TextureFormat,
    pub depth_write_enabled: bool,
    pub depth_compare: CompareFunction,
}

/// The shader stages that see a binding.
#[derive(Clone, Copy, Debug, PartialEq, Eq, Structural)]
pub struct ShaderStages {
    pub vertex: bool,
    pub fragment: bool,
}

/// What a shader finds at a binding.
#[derive(Clone, Copy, Debug, PartialEq, Eq, Structural)]
pub enum BindingType {
    /// A uniform buffer, bound whole.
    UniformBuffer,
    /// A 2D colour texture, read without filtering.
    ColorTexture,
    /// A 2D depth texture.
    DepthTexture,
    /// A sampler that does not filter.
    Sampler,
}

/// One entry of a bind group layout.
#[derive(Clone, Copy, Debug, PartialEq, Eq, Structural)]
pub struct BindGroupLayoutEntry {
    pub binding: u32,
    pub visibility: ShaderStages,
    pub ty: BindingType,
}

/// The layout entry of binding `binding`, visible to the vertex and the
/// fragment stage.
pub open spec fn spec_layout_entry(binding: u32, ty: BindingType) -> BindGroupLayoutEntry {
    BindGroupLayoutEntry { binding, visibility: ShaderStages { vertex: true, fragment: true }, ty }
}

/// A bind group layout in which entry `i` has binding number `i` and the
/// type `types[i]`, each visible to the vertex and the fragment stage.
pub open spec fn spec_bind_group_layout(types: Seq<BindingType>) -> Seq<BindGroupLayoutEntry> {
    Seq::new(types.len(), |i: int| spec_layout_entry(i as u32, types[i]))
}

/// Builds the bind group layout whose bindings are numbered from 0 in the
/// order of `types`.
pub fn bind_group_layout(types: &Vec<BindingType>) -> (entries: Vec<BindGroupLayoutEntry>)
    requires
        types.len() <= u32::MAX,
    ensures
        entries@ == spec_bind_group_layout(types@),
{
    let mut entries: Vec<BindGroupLayoutEntry> = Vec::new();
    let mut i: usize = 0;
    while i < types.len()
        invariant
            i <= types.len(),
            types.len() <= u32::MAX,
            entries@ == spec_bind_group_layout(types@).subrange(0, i as int),
        decreases types.len() - i,
    {
        entries.push(
            BindGroupLayoutEntry {
                binding: i as u32,
                visibility: ShaderStages { vertex: true, fragment: true },
                ty: types[i],
            },
        );
        i = i + 1;
    }
    entries
}

/// The shaders of the renderer's single shading model, one for each kind of
/// pass.
#[derive(Clone, Copy, Debug, PartialEq, Eq, Structural)]
pub enum ShaderId {
    /// Writes light-space depth: the shadow pass.
    LightMapping,
    /// Writes colour, normal and depth as the camera sees them: the geometry
    /// pass.
    ViewRenderer,
    /// Tests each fragment against one light's shadow map and adds the
    /// light's contribution: the composite pass.
    BodyRender,
}

/// One colour target of a pipeline. All channels are written.
#[derive(Clone, Copy, Debug, PartialEq, Eq, Structural)]
pub struct ColorTargetState {
    pub format: TextureFormat,
    pub blend: Option<BlendState>,
}

/// The state of a render pipeline.
#[derive(Clone, Debug, PartialEq, Eq)]
pub struct PipelineState {
    pub label: Option<String>,
    pub layout: Vec<BindGroupLayoutEntry>,
    pub shader: ShaderId,
    pub buffers: Vec<VertexBufferLayout>,
    pub targets: Vec<ColorTargetState>,
    pub topology: PrimitiveTopology,
    pub depth_stencil: Option<DepthStencilState>,
}

/// The state of a render pipeline as a mathematical value.
pub struct PipelineStateView {
    pub label: Option<Seq<char>>,
    pub layout: Seq<BindGroupLayoutEntry>,
    pub shader: ShaderId,
    pub buffers: Seq<VertexBufferLayoutView>,
    pub targets: Seq<ColorTargetState>,
    pub topology: PrimitiveTopology,
    pub depth_stencil: Option<DepthStencilState>,
}

/// The views of a list of vertex buffer layouts.
pub open spec fn layout_views(buffers: Seq<VertexBufferLayout>) -> Seq<VertexBufferLayoutView> {
    Seq::new(buffers.len(), |i: int| buffers[i]@)
}

impl View for PipelineState {
    type V = PipelineStateView;

    open spec fn view(&self) -> PipelineStateView {
        PipelineStateView {
            label: match self.label {
                Some(s) => Some(s@),
                None => None,
            },
            layout: self.layout@,
            shader: self.shader,
            buffers: layout_views(self.buffers@),
            targets: self.targets@,
            topology: self.topology,
            depth_stencil: self.depth_stencil,
        }
    }
}

/// Whether every attribute of a vertex layout lies inside one vertex.
pub open spec fn attributes_fit(layout: VertexBufferLayoutView) -> bool {
    forall|j: int|
        0 <= j < layout.attributes.len() ==> (#[trigger] layout.attributes[j]).offset
            + layout.attributes[j].format.spec_size() <= layout.array_stride
}

impl PipelineStateView {
    /// Whether a pipeline can be created from the state: it reads at least
    /// one vertex buffer, every vertex attribute lies inside its vertex, the
    /// bindings are numbered from 0 in order, there is at least one colour
    /// target, colour targets have colour formats and the depth test has a
    /// depth format.
    pub open spec fn valid(self) -> bool {
        &&& self.buffers.len() >= 1
        &&& forall|i: int| 0 <= i < self.buffers.len() ==> attributes_fit(#[trigger] self.buffers[i])
        &&& forall|k: int| 0 <= k < self.layout.len() ==> (#[trigger] self.layout[k]).binding == k
        &&& self.targets.len() >= 1
        &&& forall|k: int|
            0 <= k < self.targets.len() ==> !(#[trigger] self.targets[k]).format.spec_is_depth()
        &&& match self.depth_stencil {
            Some(state) => state.format.spec_is_depth(),
            None => true,
        }
    }
}

/// Checks whether every attribute of a vertex layout lies inside one vertex.
fn check_attributes_fit(layout: &VertexBufferLayout) -> (ok: bool)
    ensures
        ok == attributes_fit(layout@),
{
    let mut j: usize = 0;
    while j < layout.attributes.len()
        invariant
            j <= layout.attributes.len(),
            forall|i: int|
                0 <= i < j ==> (#[trigger] layout@.attributes[i]).offset
                    + layout@.attributes[i].format.spec_size() <= layout@.array_stride,
        decreases layout.attributes.len() - j,
    {
        let attribute: VertexAttribute = layout.attributes[j];
        let size = attribute.format.size();
        if attribute.offset > layout.array_stride || layout.array_stride - attribute.offset < size {
            assert(layout@.attributes[j as int].offset + layout@.attributes[j as int].format.spec_size()
                > layout@.array_stride);
            return false;
        }
        j = j + 1;
    }
    true
}

impl PipelineState {
    /// Checks whether a pipeline can be created from the state. A state that
    /// cannot be built fails as `RenderError::PipelineBuild`.
    pub fn validate(&self) -> (r: Result<(), RenderError>)
        ensures
            self@.valid() ==> r == Ok::<(), RenderError>(()),
            !self@.valid() ==> r == Err::<(), RenderError>(RenderError::PipelineBuild),
    {
        if self.buffers.len() < 1 || self.targets.len() < 1 {
            return Err(RenderError::PipelineBuild);
        }
        let mut i: usize = 0;
        while i < self.buffers.len()
            invariant
                i <= self.buffers.len(),
                forall|j: int| 0 <= j < i ==> attributes_fit(#[trigger] self@.buffers[j]),
            decreases self.buffers.len() - i,
        {
            if !check_attributes_fit(&self.buffers[i]) {
                assert(!attributes_fit(self@.buffers[i as int]));
                return Err(RenderError::PipelineBuild);
            }
            i = i + 1;
        }
        let mut k: usize = 0;
        while k < self.layout.len()
            invariant
                k <= self.layout.len(),
                forall|j: int| 0 <= j < k ==> (#[trigger] self@.layout[j]).binding == j,
            decreases self.layout.len() - k,
        {
            if self.layout[k].binding as usize != k || k > u32::MAX as usize {
                return Err(RenderError::PipelineBuild);
            }
            k = k + 1;
        }
        let mut t: usize = 0;
        while t < self.targets.len()
            invariant
                t <= self.targets.len(),
                forall|j: int| 0 <= j < t ==> !(#[trigger] self@.targets[j]).format.spec_is_depth(),
            decreases self.targets.len() - t,
        {
            if self.targets[t].format.is_depth() {
                return Err(RenderError::PipelineBuild);
            }
            t = t + 1;
        }
        match self.depth_stencil {
            Some(state) => {
                if !state.format.is_depth() {
                    return Err(RenderError::PipelineBuild);
                }
            },
            None => {},
        }
        Ok(())
    }

    /// What becomes of the attempt to create the pipeline on the GPU:
    /// it succeeds if the state can be built and the backend compiled the
    /// shader, and fails as `RenderError::PipelineBuild` otherwise. The failure
    /// is final: the renderer cannot be built.
    pub fn build_outcome(&self, shader_compiled: bool) -> (r: Result<(), RenderError>)
        ensures
            self@.valid() && shader_compiled ==> r == Ok::<(), RenderError>(()),
            !(self@.valid() && shader_compiled) ==> r == Err::<(), RenderError>(
                RenderError::PipelineBuild,
            ),
    {
        if shader_compiled {
            self.validate()
        } else {
            Err(RenderError::PipelineBuild)
        }
    }
}

/// What `build_render_pipe_line` returns.
pub open spec fn spec_render_pipe_line(
    name: Seq<char>,
    layout: Seq<BindGroupLayoutEntry>,
    shader: ShaderId,
    buffers: Seq<VertexBufferLayoutView>,
    format: TextureFormat,
    topology: PrimitiveTopology,
    depth_stencil_op: Option<DepthStencilState>,
    blend_op: Option<BlendState>,
) -> PipelineStateView {
    PipelineStateView {
        label: Some(name),
        layout,
        shader,
        buffers,
        targets: seq![ColorTargetState { format, blend: blend_op }],
        topology,
        depth_stencil: depth_stencil_op,
    }
}

/// Builds the state of a pipeline with one colour target of format
/// `format`, from exactly what is given: the shader, bindings, vertex layouts,
/// topology, depth test and blend, under the label `name`. Without a depth
/// test the pipeline has no depth attachment; without a blend the target is
/// written without blending.
pub fn build_render_pipe_line(
    name: &str,
    layout: Vec<BindGroupLayoutEntry>,
    shader: ShaderId,
    buffer_layout_v: Vec<VertexBufferLayout>,
    format: TextureFormat,
    topology: PrimitiveTopology,
    depth_stencil_op: Option<DepthStencilState>,
    blend_op: Option<BlendState>,
) -> (pipeline: PipelineState)
    requires
        buffer_layout_v.len() >= 1,
    ensures
        pipeline@ == spec_render_pipe_line(
            name@,
            layout@,
            shader,
            layout_views(buffer_layout_v@),
            format,
            topology,
            depth_stencil_op,
            blend_op,
        ),
{
    let mut targets: Vec<ColorTargetState> = Vec::new();
    targets.push(ColorTargetState { format, blend: blend_op });
    let pipeline = PipelineState {
        label: Some(name.to_owned()),
        layout,
        shader,
        buffers: buffer_layout_v,
        targets,
        topology,
        depth_stencil: depth_stencil_op,
    };
    assert(pipeline@.targets =~= seq![ColorTargetState { format, blend: blend_op }]);
    pipeline
}

/// What a pipeline builder has been told so far.
pub struct RenderPipelineBuilderView {
    pub name: Option<Seq<char>>,
    pub layout: Seq<BindGroupLayoutEntry>,
    pub shader: ShaderId,
    pub buffers: Seq<VertexBufferLayoutView>,
    pub format_v: Seq<TextureFormat>,
    pub blend: Option<BlendState>,
    pub topology: PrimitiveTopology,
    pub depth_stencil: Option<DepthStencilState>,
}

impl RenderPipelineBuilderView {
    /// The pipeline state that the builder stands for: one colour target for
    /// each format, all with the builder's blend.
    pub open spec fn state(self) -> PipelineStateView {
        PipelineStateView {
            label: self.name,
            layout: self.layout,
            shader: self.shader,
            buffers: self.buffers,
            targets: Seq::new(
                self.format_v.len(),
                |i: int| ColorTargetState { format: self.format_v[i], blend: self.blend },
            ),
            topology: self.topology,
            depth_stencil: self.depth_stencil,
        }
    }
}

/// Builds a pipeline state step by step, starting from the defaults: no
/// label, one colour target that each draw overwrites, triangle lists, no depth
/// test.
pub struct RenderPipelineBuilder {
    name: Option<String>,
    layout: Vec<BindGroupLayoutEntry>,
    shader: ShaderId,
    buffers: Vec<VertexBufferLayout>,
    format_v: Vec<TextureFormat>,
    blend: Option<BlendState>,
    topology: PrimitiveTopology,
    depth_stencil: Option<DepthStencilState>,
}

impl View for RenderPipelineBuilder {
    type V = RenderPipelineBuilderView;

    closed spec fn view(&self) -> RenderPipelineBuilderView {
        RenderPipelineBuilderView {
            name: match self.name {
                Some(s) => Some(s@),
                None => None,
            },
            layout: self.layout@,
            shader: self.shader,
            buffers: layout_views(self.buffers@),
            format_v: self.format_v@,
            blend: self.blend,
            topology: self.topology,
            depth_stencil: self.depth_stencil,
        }
    }
}

impl RenderPipelineBuilder {
    /// Starts a pipeline with the given bindings, shader and vertex layouts
    /// and one colour target of format `format`.
    pub fn new(
        layout: Vec<BindGroupLayoutEntry>,
        shader: ShaderId,
        buffer_layout_v: Vec<VertexBufferLayout>,
        format: TextureFormat,
    ) -> (builder: RenderPipelineBuilder)
        requires
            buffer_layout_v.len() >= 1,
        ensures
            builder@ == (RenderPipelineBuilderView {
                name: None,
                layout: layout@,
                shader,
                buffers: layout_views(buffer_layout_v@),
                format_v: seq![format],
                blend: Some(BlendState::spec_replace()),
                topology: PrimitiveTopology::TriangleList,
                depth_stencil: None,
            }),
    {
        let mut format_v: Vec<TextureFormat> = Vec::new();
        format_v.push(format);
        RenderPipelineBuilder {
            name: None,
            layout,
            shader,
            buffers: buffer_layout_v,
            format_v,
            blend: Some(BlendState::replace()),
            topology: PrimitiveTopology::TriangleList,
            depth_stencil: None,
        }
    }

    /// Sets or removes the label.
    pub fn set_name(self, name: Option<&str>) -> (builder: RenderPipelineBuilder)
        ensures
            builder@ == (RenderPipelineBuilderView {
                name: match name {
                    Some(s) => Some(s@),
                    None => None,
                },
                ..self@
            }),
    {
        let mut builder = self;
        builder.name = match name {
            Some(s) => Some(s.to_owned()),
            None => None,
        };
        builder
    }

    /// Adds a colour target of format `format` after those already there.
    pub fn add_target(self, format: TextureFormat) -> (builder: RenderPipelineBuilder)
        ensures
            builder@ == (RenderPipelineBuilderView {
                format_v: self@.format_v.push(format),
                ..self@
            }),
    {
        let mut builder = self;
        builder.format_v.push(format);
        builder
    }

    /// Sets the blend of every colour target; `None` switches blending off.
    pub fn set_blend(self, blend: Option<BlendState>) -> (builder: RenderPipelineBuilder)
        ensures
            builder@ == (RenderPipelineBuilderView { blend, ..self@ }),
    {
        let mut builder = self;
        builder.blend = blend;
        builder
    }

    /// Sets the primitive topology.
    pub fn set_topology(self, topology: PrimitiveTopology) -> (builder: RenderPipelineBuilder)
        ensures
            builder@ == (RenderPipelineBuilderView { topology, ..self@ }),
    {
        let mut builder = self;
        builder.topology = topology;
        builder
    }

    /// Sets the depth test; `None` draws without a depth attachment.
    pub fn set_depth_stencil(self, depth_stencil: Option<DepthStencilState>) -> (builder:
        RenderPipelineBuilder)
        ensures
            builder@ == (RenderPipelineBuilderView { depth_stencil, ..self@ }),
    {
        let mut builder = self;
        builder.depth_stencil = depth_stencil;
        builder
    }

    /// The pipeline state that was described.
    pub fn build(self) -> (pipeline: PipelineState)
        ensures
            pipeline@ == self@.state(),
    {
        let mut targets: Vec<ColorTargetState> = Vec::new();
        let mut i: usize = 0;
        while i < self.format_v.len()
            invariant
                i <= self.format_v.len(),
                targets@ == self@.state().targets.subrange(0, i as int),
            decreases self.format_v.len() - i,
        {
            targets.push(ColorTargetState { format: self.format_v[i], blend: self.blend });
            i = i + 1;
        }
        assert(targets@ =~= self@.state().targets);
        PipelineState {
            label: self.name,
            layout: self.layout,
            shader: self.shader,
            buffers: self.buffers,
            targets,
            topology: self.topology,
            depth_stencil: self.depth_stencil,
        }
    }
}

} // verus!
