//! Matrices and vectors as the renderer sees them: opaque payloads of
//! 32-bit words, column-major, that are handed to the GPU bit for bit.
//!
//! The renderer never does arithmetic on a matrix. Each word is the IEEE-754
//! single-precision bit pattern of the corresponding component, so equality of
//! two values here is bit equality of the data the shaders receive.
use vstd::prelude::*;

verus! {

/// Bit pattern of the single-precision value `0.0`.
pub const BITS_ZERO: u32 = 0;

/// Bit pattern of the single-precision value `0.5`.
pub const BITS_HALF: u32 = 0x3F00_0000;

/// Bit pattern of the single-precision value `1.0`.
pub const BITS_ONE: u32 = 0x3F80_0000;

/// Bit pattern of the single-precision value `-1.0`.
pub const BITS_NEG_ONE: u32 = 0xBF80_0000;

/// Four words: a position, a direction or a colour.
#[derive(Clone, Copy, Debug, PartialEq, Eq, Structural)]
pub struct Vec4 {
    pub x: u32,
    pub y: u32,
    pub z: u32,
    pub w: u32,
}

impl Vec4 {
    /// The four components in order.
    pub open spec fn words(self) -> Seq<u32> {
        seq![self.x, self.y, self.z, self.w]
    }

    pub fn new(x: u32, y: u32, z: u32, w: u32) -> (v: Vec4)
        ensures
            v == (Vec4 { x, y, z, w }),
    {
        Vec4 { x, y, z, w }
    }

    /// Appends the four components to `out`.
    pub fn push_words(&self, out: &mut Vec<u32>)
        ensures
            final(out)@ == old(out)@ + self.words(),
    {
        out.push(self.x);
        out.push(self.y);
        out.push(self.z);
        out.push(self.w);
    }
}

/// A 4x4 matrix held as its four columns.
#[derive(Clone, Copy, Debug, PartialEq, Eq, Structural)]
pub struct Mat4 {
    pub c0: Vec4,
    pub c1: Vec4,
    pub c2: Vec4,
    pub c3: Vec4,
}

impl Mat4 {
    /// The sixteen words in column-major order, as a uniform buffer holds them.
    pub open spec fn words(self) -> Seq<u32> {
        self.c0.words() + self.c1.words() + self.c2.words() + self.c3.words()
    }

    /// The identity as a value of the model.
    pub open spec fn spec_identity() -> Mat4 {
        Mat4 {
            c0: Vec4 { x: BITS_ONE, y: BITS_ZERO, z: BITS_ZERO, w: BITS_ZERO },
            c1: Vec4 { x: BITS_ZERO, y: BITS_ONE, z: BITS_ZERO, w: BITS_ZERO },
            c2: Vec4 { x: BITS_ZERO, y: BITS_ZERO, z: BITS_ONE, w: BITS_ZERO },
            c3: Vec4 { x: BITS_ZERO, y: BITS_ZERO, z: BITS_ZERO, w: BITS_ONE },
        }
    }

    /// The identity matrix.
    pub fn identity() -> (m: Mat4)
        ensures
            m == Mat4::spec_identity(),
    {
        Mat4 {
            c0: Vec4 { x: BITS_ONE, y: BITS_ZERO, z: BITS_ZERO, w: BITS_ZERO },
            c1: Vec4 { x: BITS_ZERO, y: BITS_ONE, z: BITS_ZERO, w: BITS_ZERO },
            c2: Vec4 { x: BITS_ZERO, y: BITS_ZERO, z: BITS_ONE, w: BITS_ZERO },
            c3: Vec4 { x: BITS_ZERO, y: BITS_ZERO, z: BITS_ZERO, w: BITS_ONE },
        }
    }

    /// Builds a matrix from sixteen words in column-major order.
    pub fn from_words(w: &[u32; 16]) -> (m: Mat4)
        ensures
            m.words() == w@,
    {
        let m = Mat4 {
            c0: Vec4 { x: w[0], y: w[1], z: w[2], w: w[3] },
            c1: Vec4 { x: w[4], y: w[5], z: w[6], w: w[7] },
            c2: Vec4 { x: w[8], y: w[9], z: w[10], w: w[11] },
            c3: Vec4 { x: w[12], y: w[13], z: w[14], w: w[15] },
        };
        m
    }

    /// The sixteen words in column-major order.
    pub fn to_words(&self) -> (out: Vec<u32>)
        ensures
            out@ == self.words(),
    {
        let mut out: Vec<u32> = Vec::new();
        self.c0.push_words(&mut out);
        self.c1.push_words(&mut out);
        self.c2.push_words(&mut out);
        self.c3.push_words(&mut out);
        out
    }
}

/// The offset matrix as a value of the model.
pub open spec fn spec_wgpu_offset_m() -> Mat4 {
    Mat4 {
        c0: Vec4 { x: BITS_ONE, y: BITS_ZERO, z: BITS_ZERO, w: BITS_ZERO },
        c1: Vec4 { x: BITS_ZERO, y: BITS_ONE, z: BITS_ZERO, w: BITS_ZERO },
        c2: Vec4 { x: BITS_ZERO, y: BITS_ZERO, z: BITS_HALF, w: BITS_ZERO },
        c3: Vec4 { x: BITS_ZERO, y: BITS_ZERO, z: BITS_HALF, w: BITS_ONE },
    }
}

/// The fixed matrix that maps clip-space depth in `[-1, 1]` to the depth-buffer
/// range `[0, 1]`: `z' = 0.5 z + 0.5 w`, every other component unchanged.
///
/// A caller multiplies it onto a projection once, when the projection is
/// composed. No pass of the renderer applies it again: every pass hands the
/// projection it was given to the GPU unchanged.
pub fn wgpu_offset_m() -> (m: Mat4)
    ensures
        m == spec_wgpu_offset_m(),
{
    Mat4 {
        c0: Vec4 { x: BITS_ONE, y: BITS_ZERO, z: BITS_ZERO, w: BITS_ZERO },
        c1: Vec4 { x: BITS_ZERO, y: BITS_ONE, z: BITS_ZERO, w: BITS_ZERO },
        c2: Vec4 { x: BITS_ZERO, y: BITS_ZERO, z: BITS_HALF, w: BITS_ZERO },
        c3: Vec4 { x: BITS_ZERO, y: BITS_ZERO, z: BITS_HALF, w: BITS_ONE },
    }
}

} // verus!
