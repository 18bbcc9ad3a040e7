//! Vertex data: the byte layout of each vertex type and the layouts that the
//! pipelines declare for them.
use vstd::prelude::*;
use crate::math::{Vec4, BITS_NEG_ONE, BITS_ONE, BITS_ZERO};

verus! {

/// The component formats that the renderer's vertex types are made of.
#[derive(Clone, Copy, Debug, PartialEq, Eq, Structural)]
pub enum VertexFormat {
    /// Two single-precision components.
    Float32x2,
    /// Three single-precision components.
    Float32x3,
    /// Four single-precision components.
    Float32x4,
}

impl VertexFormat {
    /// Size of the format in bytes.
    pub open spec fn spec_size(self) -> u64 {
        match self {
            VertexFormat::Float32x2 => 8,
            VertexFormat::Float32x3 => 12,
            VertexFormat::Float32x4 => 16,
        }
    }

    /// Size of the format in bytes.
    pub fn size(&self) -> (n: u64)
        ensures
            n == self.spec_size(),
    {
        match self {
            VertexFormat::Float32x2 => 8,
            VertexFormat::Float32x3 => 12,
            VertexFormat::Float32x4 => 16,
        }
    }
}

/// One attribute of a vertex: where it lies in the vertex and which shader
/// input it feeds.
#[derive(Clone, Copy, Debug, PartialEq, Eq, Structural)]
pub struct VertexAttribute {
    pub format: VertexFormat,
    pub offset: u64,
    pub shader_location: u32,
}

/// Whether a buffer advances once per vertex or once per instance.
#[derive(Clone, Copy, Debug, PartialEq, Eq, Structural)]
pub enum VertexStepMode {
    Vertex,
    Instance,
}

/// How a pipeline reads one vertex buffer.
#[derive(Clone, Debug, PartialEq, Eq)]
pub struct VertexBufferLayout {
    pub array_stride: u64,
    pub step_mode: VertexStepMode,
    pub attributes: Vec<VertexAttribute>,
}

/// A vertex buffer layout as a mathematical value.
pub struct VertexBufferLayoutView {
    pub array_stride: u64,
    pub step_mode: VertexStepMode,
    pub attributes: Seq<VertexAttribute>,
}

impl View for VertexBufferLayout {
    type V = VertexBufferLayoutView;

    open spec fn view(&self) -> VertexBufferLayoutView {
        VertexBufferLayoutView {
            array_stride: self.array_stride,
            step_mode: self.step_mode,
            attributes: self.attributes@,
        }
    }
}

/// Number of bytes that the first `n` formats of `entries` take together.
pub open spec fn packed_offset(entries: Seq<(u32, VertexFormat)>, n: int) -> int
    decreases n,
{
    if n <= 0 {
        0
    } else {
        packed_offset(entries, n - 1) + entries[n - 1].1.spec_size()
    }
}

/// The attributes of a tightly packed vertex: entry `i` keeps its shader
/// location and format and starts where the entries before it end.
pub open spec fn packed_attributes(entries: Seq<(u32, VertexFormat)>) -> Seq<VertexAttribute> {
    Seq::new(
        entries.len(),
        |i: int|
            VertexAttribute {
                format: entries[i].1,
                offset: packed_offset(entries, i) as u64,
                shader_location: entries[i].0,
            },
    )
}

/// Every prefix of a list of formats takes at most 16 bytes per format.
pub proof fn lemma_packed_offset_bound(entries: Seq<(u32, VertexFormat)>, n: int)
    requires
        0 <= n <= entries.len(),
    ensures
        0 <= packed_offset(entries, n) <= 16 * n,
    decreases n,
{
    if n > 0 {
        lemma_packed_offset_bound(entries, n - 1);
    }
}

/// Lays out a list of `(shader location, format)` pairs as the attributes of
/// a tightly packed vertex, in the order given. The list must be short enough
/// for every offset to fit in 64 bits.
pub fn vertex_attr_array(entries: &Vec<(u32, VertexFormat)>) -> (attributes: Vec<VertexAttribute>)
    requires
        16 * entries.len() <= u64::MAX,
    ensures
        attributes@ == packed_attributes(entries@),
{
    let mut attributes: Vec<VertexAttribute> = Vec::new();
    let mut offset: u64 = 0;
    let mut i: usize = 0;
    while i < entries.len()
        invariant
            i <= entries.len(),
            16 * entries.len() <= u64::MAX,
            offset == packed_offset(entries@, i as int),
            attributes@ == packed_attributes(entries@).subrange(0, i as int),
        decreases entries.len() - i,
    {
        proof {
            lemma_packed_offset_bound(entries@, i as int);
        }
        let (location, format) = entries[i];
        attributes.push(VertexAttribute { format, offset, shader_location: location });
        offset = offset + format.size();
        i = i + 1;
    }
    attributes
}

/// A 2D point: the vertex of the flat drawers.
#[derive(Clone, Copy, Debug, PartialEq, Eq)]
pub struct PointInput {
    pub position: (u32, u32),
}

/// Size of a `PointInput` in bytes.
pub const POINT_INPUT_SIZE: u64 = 8;

impl PointInput {
    /// The layout of a buffer of `PointInput`.
    pub open spec fn spec_desc() -> VertexBufferLayoutView {
        VertexBufferLayoutView {
            array_stride: POINT_INPUT_SIZE,
            step_mode: VertexStepMode::Vertex,
            attributes: seq![
                VertexAttribute { format: VertexFormat::Float32x2, offset: 0, shader_location: 0 },
            ],
        }
    }

    /// The layout of a buffer of `PointInput`: one position attribute.
    pub fn desc() -> (layout: VertexBufferLayout)
        ensures
            layout@ == PointInput::spec_desc(),
    {
        let mut entries: Vec<(u32, VertexFormat)> = Vec::new();
        entries.push((0, VertexFormat::Float32x2));
        let attributes = vertex_attr_array(&entries);
        proof {
            reveal_with_fuel(packed_offset, 2);
            assert(attributes@ =~= PointInput::spec_desc().attributes);
        }
        VertexBufferLayout {
            array_stride: POINT_INPUT_SIZE,
            step_mode: VertexStepMode::Vertex,
            attributes,
        }
    }
}

/// A 3D vertex: position, colour and normal, four words each.
#[derive(Clone, Copy, Debug, PartialEq, Eq, Structural)]
pub struct Point3Input {
    pub position: Vec4,
    pub color: Vec4,
    pub normal: Vec4,
}

/// Size of a `Point3Input` in bytes.
pub const POINT3_INPUT_SIZE: u64 = 48;

impl Point3Input {
    /// The words of the vertex in buffer order.
    pub open spec fn words(self) -> Seq<u32> {
        self.position.words() + self.color.words() + self.normal.words()
    }

    /// The layout that reads only the position of each vertex.
    pub open spec fn spec_pos_only_desc() -> VertexBufferLayoutView {
        VertexBufferLayoutView {
            array_stride: POINT3_INPUT_SIZE,
            step_mode: VertexStepMode::Vertex,
            attributes: seq![
                VertexAttribute { format: VertexFormat::Float32x4, offset: 0, shader_location: 0 },
            ],
        }
    }

    /// The layout that reads position, colour and normal of each vertex.
    pub open spec fn spec_desc() -> VertexBufferLayoutView {
        VertexBufferLayoutView {
            array_stride: POINT3_INPUT_SIZE,
            step_mode: VertexStepMode::Vertex,
            attributes: seq![
                VertexAttribute { format: VertexFormat::Float32x4, offset: 0, shader_location: 0 },
                VertexAttribute { format: VertexFormat::Float32x4, offset: 16, shader_location: 1 },
                VertexAttribute { format: VertexFormat::Float32x4, offset: 32, shader_location: 2 },
            ],
        }
    }

    /// The layout of a buffer of `Point3Input` of which only the position is
    /// read: the stride is that of the whole vertex.
    pub fn pos_only_desc() -> (layout: VertexBufferLayout)
        ensures
            layout@ == Point3Input::spec_pos_only_desc(),
    {
        let mut entries: Vec<(u32, VertexFormat)> = Vec::new();
        entries.push((0, VertexFormat::Float32x4));
        let attributes = vertex_attr_array(&entries);
        proof {
            reveal_with_fuel(packed_offset, 2);
            assert(attributes@ =~= Point3Input::spec_pos_only_desc().attributes);
        }
        VertexBufferLayout {
            array_stride: POINT3_INPUT_SIZE,
            step_mode: VertexStepMode::Vertex,
            attributes,
        }
    }

    /// The layout of a buffer of `Point3Input`: position, colour, normal.
    pub fn desc() -> (layout: VertexBufferLayout)
        ensures
            layout@ == Point3Input::spec_desc(),
    {
        let mut entries: Vec<(u32, VertexFormat)> = Vec::new();
        entries.push((0, VertexFormat::Float32x4));
        entries.push((1, VertexFormat::Float32x4));
        entries.push((2, VertexFormat::Float32x4));
        let attributes = vertex_attr_array(&entries);
        proof {
            reveal_with_fuel(packed_offset, 4);
            assert(attributes@ =~= Point3Input::spec_desc().attributes);
        }
        VertexBufferLayout {
            array_stride: POINT3_INPUT_SIZE,
            step_mode: VertexStepMode::Vertex,
            attributes,
        }
    }
}

/// A coloured 2D point: the vertex of the line drawer.
#[derive(Clone, Copy, Debug, PartialEq, Eq)]
pub struct LineIn {
    pub position: (u32, u32),
    pub color: (u32, u32, u32),
}

/// Size of a `LineIn` in bytes.
pub const LINE_IN_SIZE: u64 = 20;

impl LineIn {
    /// The layout of a buffer of `LineIn`.
    pub open spec fn spec_desc() -> VertexBufferLayoutView {
        VertexBufferLayoutView {
            array_stride: LINE_IN_SIZE,
            step_mode: VertexStepMode::Vertex,
            attributes: seq![
                VertexAttribute { format: VertexFormat::Float32x2, offset: 0, shader_location: 0 },
                VertexAttribute { format: VertexFormat::Float32x3, offset: 8, shader_location: 1 },
            ],
        }
    }

    /// The layout of a buffer of `LineIn`: position, then colour.
    pub fn desc() -> (layout: VertexBufferLayout)
        ensures
            layout@ == LineIn::spec_desc(),
    {
        let mut entries: Vec<(u32, VertexFormat)> = Vec::new();
        entries.push((0, VertexFormat::Float32x2));
        entries.push((1, VertexFormat::Float32x3));
        let attributes = vertex_attr_array(&entries);
        proof {
            reveal_with_fuel(packed_offset, 3);
            assert(attributes@ =~= LineIn::spec_desc().attributes);
        }
        VertexBufferLayout {
            array_stride: LINE_IN_SIZE,
            step_mode: VertexStepMode::Vertex,
            attributes,
        }
    }
}

/// The vertices of the quad that covers the whole target, as a value of the
/// model: two triangles, six vertices, at depth 0, white, facing the viewer.
pub open spec fn spec_quad() -> Seq<Point3Input> {
    seq![
        quad_vertex(BITS_NEG_ONE, BITS_ONE),
        quad_vertex(BITS_NEG_ONE, BITS_NEG_ONE),
        quad_vertex(BITS_ONE, BITS_NEG_ONE),
        quad_vertex(BITS_NEG_ONE, BITS_ONE),
        quad_vertex(BITS_ONE, BITS_NEG_ONE),
        quad_vertex(BITS_ONE, BITS_ONE),
    ]
}

/// The quad's vertex at clip-space position `(x, y)`.
pub open spec fn quad_vertex(x: u32, y: u32) -> Point3Input {
    Point3Input {
        position: Vec4 { x, y, z: BITS_ZERO, w: BITS_ONE },
        color: Vec4 { x: BITS_ONE, y: BITS_ONE, z: BITS_ONE, w: BITS_ONE },
        normal: Vec4 { x: BITS_ZERO, y: BITS_ZERO, z: BITS_ONE, w: BITS_ZERO },
    }
}

/// Number of vertices of the full-screen quad.
pub const QUAD_VERTEX_COUNT: u32 = 6;

/// A mesh on the CPU side: the vertices of a triangle list.
#[derive(Clone, Debug, PartialEq, Eq)]
pub struct Point3InputArray {
    vertex_v: Vec<Point3Input>,
}

impl View for Point3InputArray {
    type V = Seq<Point3Input>;

    closed spec fn view(&self) -> Seq<Point3Input> {
        self.vertex_v@
    }
}

impl Point3InputArray {
    /// Takes a list of vertices as a mesh.
    pub fn from_vertices(vertex_v: Vec<Point3Input>) -> (array: Point3InputArray)
        ensures
            array@ == vertex_v@,
    {
        Point3InputArray { vertex_v }
    }

    /// The quad that covers the whole target in clip space.
    pub fn quad() -> (array: Point3InputArray)
        ensures
            array@ == spec_quad(),
            array@.len() == QUAD_VERTEX_COUNT,
    {
        let mut vertex_v: Vec<Point3Input> = Vec::new();
        vertex_v.push(make_quad_vertex(BITS_NEG_ONE, BITS_ONE));
        vertex_v.push(make_quad_vertex(BITS_NEG_ONE, BITS_NEG_ONE));
        vertex_v.push(make_quad_vertex(BITS_ONE, BITS_NEG_ONE));
        vertex_v.push(make_quad_vertex(BITS_NEG_ONE, BITS_ONE));
        vertex_v.push(make_quad_vertex(BITS_ONE, BITS_NEG_ONE));
        vertex_v.push(make_quad_vertex(BITS_ONE, BITS_ONE));
        Point3InputArray { vertex_v }
    }

    /// The vertices of the mesh.
    pub fn vertex_v(&self) -> (vertex_v: &[Point3Input])
        ensures
            vertex_v@ == self@,
    {
        self.vertex_v.as_slice()
    }

    /// Size in bytes of the vertex buffer that holds the mesh, if it fits in
    /// 64 bits.
    pub fn byte_size(&self) -> (size: Option<u64>)
        ensures
            size == if self@.len() * POINT3_INPUT_SIZE <= u64::MAX {
                Some((self@.len() * POINT3_INPUT_SIZE) as u64)
            } else {
                None
            },
    {
        let n = self.vertex_v.len();
        if n as u64 as usize == n && n as u64 <= u64::MAX / POINT3_INPUT_SIZE {
            Some(n as u64 * POINT3_INPUT_SIZE)
        } else {
            None
        }
    }
}

fn make_quad_vertex(x: u32, y: u32) -> (v: Point3Input)
    ensures
        v == quad_vertex(x, y),
{
    Point3Input {
        position: Vec4 { x, y, z: BITS_ZERO, w: BITS_ONE },
        color: Vec4 { x: BITS_ONE, y: BITS_ONE, z: BITS_ONE, w: BITS_ONE },
        normal: Vec4 { x: BITS_ZERO, y: BITS_ZERO, z: BITS_ONE, w: BITS_ZERO },
    }
}

} // verus!
