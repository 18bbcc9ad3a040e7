//! The scene as the renderer receives it: meshes and lights in one list, in
//! the caller's order.
use vstd::prelude::*;
use crate::math::{Mat4, Vec4};
use crate::structs::POINT3_INPUT_SIZE;

verus! {

/// A vertex buffer on the GPU, named by the handle under which the backend
/// keeps it, with its size in bytes. It holds a triangle list of
/// `Point3Input`.
#[derive(Clone, Copy, Debug, PartialEq, Eq, Structural)]
pub struct VertexBuffer {
    pub id: u64,
    pub size: u64,
}

/// Number of whole vertices in a buffer of `size` bytes, as a draw call takes
/// it: reduced to 32 bits.
pub open spec fn spec_vertex_count(size: u64) -> u32 {
    ((size / POINT3_INPUT_SIZE) % 0x1_0000_0000) as u32
}

impl VertexBuffer {
    /// Number of vertices that a draw of the whole buffer covers.
    pub fn vertex_count(&self) -> (n: u32)
        ensures
            n == spec_vertex_count(self.size),
    {
        ((self.size / POINT3_INPUT_SIZE) % 0x1_0000_0000) as u32
    }
}

/// A mesh: a vertex buffer and the transform that places it in the world.
/// The renderer borrows it for a frame and never changes it.
#[derive(Clone, Copy, Debug, PartialEq, Eq, Structural)]
pub struct Body {
    pub model_m: Mat4,
    pub buf: VertexBuffer,
}

/// A light: its colour and the view and projection that define its light
/// space, with the light-space matrix itself.
///
/// The renderer multiplies no matrices. The shadow pass hands `matrix` to its
/// shader, the composite pass hands `view` and `proj` to its shader, each as it
/// is given; that `matrix` is the product of the other two is the caller's to
/// see to.
#[derive(Clone, Copy, Debug, PartialEq, Eq, Structural)]
pub struct Light {
    pub color: Vec4,
    pub view: Mat4,
    pub proj: Mat4,
    /// Light space as one matrix: projection times view.
    pub matrix: Mat4,
}

/// One entry of a scene.
#[derive(Clone, Copy, Debug, PartialEq, Eq, Structural)]
pub enum ThreeLook {
    Body(Body),
    Light(Light),
}

impl ThreeLook {
    /// The mesh, if the entry is one.
    pub fn as_body(&self) -> (r: Option<&Body>)
        ensures
            r == match *self {
                ThreeLook::Body(b) => Some(&b),
                ThreeLook::Light(_) => None,
            },
    {
        match self {
            ThreeLook::Body(b) => Some(b),
            ThreeLook::Light(_) => None,
        }
    }

    /// The light, if the entry is one.
    pub fn as_light(&self) -> (r: Option<&Light>)
        ensures
            r == match *self {
                ThreeLook::Light(l) => Some(&l),
                ThreeLook::Body(_) => None,
            },
    {
        match self {
            ThreeLook::Light(l) => Some(l),
            ThreeLook::Body(_) => None,
        }
    }

    /// The mesh for writing, if the entry is one. What is written through the
    /// reference becomes the entry's mesh; an entry that is a light stays as it
    /// is.
    pub fn as_body_mut(&mut self) -> (r: Option<&mut Body>)
        ensures
            match r {
                Some(b) => *old(self) == ThreeLook::Body(*b) && *final(self) == ThreeLook::Body(
                    *final(b),
                ),
                None => (*old(self)) is Light && *final(self) == *old(self),
            },
    {
        match self {
            ThreeLook::Body(b) => Some(b),
            ThreeLook::Light(_) => None,
        }
    }

    /// The light for writing, if the entry is one. What is written through
    /// the reference becomes the entry's light; an entry that is a mesh stays as
    /// it is.
    pub fn as_light_mut(&mut self) -> (r: Option<&mut Light>)
        ensures
            match r {
                Some(l) => *old(self) == ThreeLook::Light(*l) && *final(self) == ThreeLook::Light(
                    *final(l),
                ),
                None => (*old(self)) is Body && *final(self) == *old(self),
            },
    {
        match self {
            ThreeLook::Light(l) => Some(l),
            ThreeLook::Body(_) => None,
        }
    }
}

/// The meshes of a scene, in the order in which the scene lists them.
pub open spec fn bodies_of(look_v: Seq<ThreeLook>) -> Seq<Body>
    decreases look_v.len(),
{
    if look_v.len() == 0 {
        Seq::empty()
    } else {
        match look_v.last() {
            ThreeLook::Body(b) => bodies_of(look_v.drop_last()).push(b),
            ThreeLook::Light(_) => bodies_of(look_v.drop_last()),
        }
    }
}

/// The lights of a scene, in the order in which the scene lists them.
pub open spec fn lights_of(look_v: Seq<ThreeLook>) -> Seq<Light>
    decreases look_v.len(),
{
    if look_v.len() == 0 {
        Seq::empty()
    } else {
        match look_v.last() {
            ThreeLook::Light(l) => lights_of(look_v.drop_last()).push(l),
            ThreeLook::Body(_) => lights_of(look_v.drop_last()),
        }
    }
}

/// Splits a scene into its meshes and its lights. Each list keeps the order
/// of the scene; nothing is sorted, dropped or repeated.
pub fn partition(look_v: &Vec<ThreeLook>) -> (r: (Vec<Body>, Vec<Light>))
    ensures
        r.0@ == bodies_of(look_v@),
        r.1@ == lights_of(look_v@),
{
    let mut body_v: Vec<Body> = Vec::new();
    let mut light_v: Vec<Light> = Vec::new();
    let mut i: usize = 0;
    while i < look_v.len()
        invariant
            i <= look_v.len(),
            body_v@ == bodies_of(look_v@.subrange(0, i as int)),
            light_v@ == lights_of(look_v@.subrange(0, i as int)),
        decreases look_v.len() - i,
    {
        proof {
            let next = look_v@.subrange(0, i + 1);
            assert(next.drop_last() =~= look_v@.subrange(0, i as int));
        }
        match look_v[i] {
            ThreeLook::Body(b) => body_v.push(b),
            ThreeLook::Light(l) => light_v.push(l),
        }
        i = i + 1;
    }
    assert(look_v@.subrange(0, i as int) =~= look_v@);
    (body_v, light_v)
}

/// Every entry of a scene is a mesh or a light, so the two lists of a
/// partition have as many entries together as the scene.
pub proof fn lemma_partition_len(look_v: Seq<ThreeLook>)
    ensures
        bodies_of(look_v).len() + lights_of(look_v).len() == look_v.len(),
    decreases look_v.len(),
{
    if look_v.len() > 0 {
        lemma_partition_len(look_v.drop_last());
    }
}

} // verus!
