//! What a draw call binds: the resource at each binding of the shader.
use vstd::prelude::*;
use crate::math::{Mat4, Vec4};
use crate::pipeline::{BindGroupLayoutEntry, BindingType};

verus! {

/// A texture of a frame, named by its role.
#[derive(Clone, Copy, Debug, PartialEq, Eq, Structural)]
pub enum TextureRef {
    /// The colour texture of the G-buffer.
    GBufferColor,
    /// The normal texture of the G-buffer.
    GBufferNormal,
    /// The depth texture of the G-buffer.
    GBufferDepth,
    /// The colour attachment of the shadow pass at this position.
    ShadowColor(usize),
    /// The depth attachment of the shadow pass at this position: that
    /// light's shadow map.
    ShadowDepth(usize),
}

impl TextureRef {
    /// Whether the texture holds depth.
    pub open spec fn spec_is_depth(self) -> bool {
        self is GBufferDepth || self is ShadowDepth
    }

    /// Whether the texture holds depth.
    pub fn is_depth(&self) -> (b: bool)
        ensures
            b == self.spec_is_depth(),
    {
        match self {
            TextureRef::GBufferDepth => true,
            TextureRef::ShadowDepth(_) => true,
            _ => false,
        }
    }
}

/// What is bound at one binding.
#[derive(Clone, Copy, Debug, PartialEq, Eq, Structural)]
pub enum Resource {
    /// A uniform buffer that holds a matrix.
    Matrix(Mat4),
    /// A uniform buffer that holds a vector.
    Vector(Vec4),
    /// A uniform buffer that holds one word.
    Word(u32),
    /// A view of a texture.
    Texture(TextureRef),
    /// The sampler of the G-buffer.
    Sampler,
}

impl Resource {
    /// The type of binding that takes the resource.
    pub open spec fn spec_binding_type(self) -> BindingType {
        match self {
            Resource::Matrix(_) => BindingType::UniformBuffer,
            Resource::Vector(_) => BindingType::UniformBuffer,
            Resource::Word(_) => BindingType::UniformBuffer,
            Resource::Texture(t) => if t.spec_is_depth() {
                BindingType::DepthTexture
            } else {
                BindingType::ColorTexture
            },
            Resource::Sampler => BindingType::Sampler,
        }
    }

    /// The type of binding that takes the resource.
    pub fn binding_type(&self) -> (ty: BindingType)
        ensures
            ty == self.spec_binding_type(),
    {
        match self {
            Resource::Matrix(_) => BindingType::UniformBuffer,
            Resource::Vector(_) => BindingType::UniformBuffer,
            Resource::Word(_) => BindingType::UniformBuffer,
            Resource::Texture(t) => if t.is_depth() {
                BindingType::DepthTexture
            } else {
                BindingType::ColorTexture
            },
            Resource::Sampler => BindingType::Sampler,
        }
    }
}

/// Whether a bind group fits a layout: it has one resource for each entry,
/// the resource at position `k` goes to binding `k`, and it is of the type
/// that the entry asks for.
pub open spec fn conforms(resource_v: Seq<Resource>, layout: Seq<BindGroupLayoutEntry>) -> bool {
    &&& resource_v.len() == layout.len()
    &&& forall|k: int|
        0 <= k < layout.len() ==> (#[trigger] layout[k]).binding == k
            && resource_v[k].spec_binding_type() == layout[k].ty
}

/// Checks whether a bind group fits a layout.
pub fn check_conforms(resource_v: &Vec<Resource>, layout: &Vec<BindGroupLayoutEntry>) -> (ok: bool)
    ensures
        ok == conforms(resource_v@, layout@),
{
    if resource_v.len() != layout.len() {
        return false;
    }
    let mut k: usize = 0;
    while k < layout.len()
        invariant
            k <= layout.len(),
            resource_v.len() == layout.len(),
            forall|j: int|
                0 <= j < k ==> (#[trigger] layout@[j]).binding == j
                    && resource_v@[j].spec_binding_type() == layout@[j].ty,
        decreases layout.len() - k,
    {
        let entry = &layout[k];
        if entry.binding as usize != k || k > u32::MAX as usize {
            return false;
        }
        let ty = resource_v[k].binding_type();
        if ty != entry.ty {
            return false;
        }
        k = k + 1;
    }
    true
}

} // verus!
