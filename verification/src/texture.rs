//! Textures as the renderer asks for them: size, format and use.
use vstd::prelude::*;
use crate::pipeline::TextureFormat;

verus! {

/// Width and height of every shadow map, and of the G-buffer until the first
/// resize.
pub const INTERNAL_SIZE: u32 = 1024;

/// Bit pattern of the depth to which a depth attachment is cleared: `1.0`,
/// the far plane, which stands for "no occluder".
pub const DEPTH_FAR: u32 = 0x3F80_0000;

/// What a texture may be used for.
#[derive(Clone, Copy, Debug, PartialEq, Eq, Structural)]
pub struct TextureUsages {
    /// A pass may draw into it.
    pub render_attachment: bool,
    /// A shader may read it.
    pub texture_binding: bool,
    /// Its contents may be copied out for inspection.
    pub copy_src: bool,
}

/// A 2D texture with one mip level and one sample per texel.
#[derive(Clone, Copy, Debug, PartialEq, Eq, Structural)]
pub struct TextureDescriptor {
    pub width: u32,
    pub height: u32,
    pub format: TextureFormat,
    pub usage: TextureUsages,
}

/// The texture that a pass draws into and a later pass reads: `width` by
/// `height` texels of `format`, which can also be copied out.
pub open spec fn spec_attachment(width: u32, height: u32, format: TextureFormat)
    -> TextureDescriptor {
    TextureDescriptor {
        width,
        height,
        format,
        usage: TextureUsages { render_attachment: true, texture_binding: true, copy_src: true },
    }
}

/// Describes a texture that a pass draws into and a later pass reads.
pub fn attachment(width: u32, height: u32, format: TextureFormat) -> (desc: TextureDescriptor)
    ensures
        desc == spec_attachment(width, height, format),
{
    TextureDescriptor {
        width,
        height,
        format,
        usage: TextureUsages { render_attachment: true, texture_binding: true, copy_src: true },
    }
}

} // verus!
