//! Diagnostic export: copying a texture out of the GPU and decoding it into
//! an image. The copy and the file are the backend's work; the sizes, the
//! decoding and the verdict on a readback are decided here.
use vstd::prelude::*;
use crate::err::RenderError;

verus! {

/// Seconds that a readback waits for the mapped buffer before it gives up.
pub const READBACK_TIMEOUT_SECS: u64 = 3;

/// The buffer that receives a texture: its size and the length of one row,
/// both in bytes. Rows are packed without padding.
#[derive(Clone, Copy, Debug, PartialEq, Eq, Structural)]
pub struct ReadbackLayout {
    pub size: u64,
    pub bytes_per_row: u32,
}

/// The layout of the buffer for a texture of `width` by `height` texels of
/// `p_sz` bytes, if the length of a row and the size of the whole both fit in
/// 32 bits.
pub open spec fn spec_readback_layout(width: u32, height: u32, p_sz: usize) -> Option<
    ReadbackLayout,
> {
    if width * p_sz <= u32::MAX && width * p_sz * height <= u32::MAX {
        Some(
            ReadbackLayout {
                size: (width * p_sz * height) as u64,
                bytes_per_row: (width * p_sz) as u32,
            },
        )
    } else {
        None
    }
}

/// Lays out the buffer that receives a texture of `width` by `height` texels
/// of `p_sz` bytes each: `height` rows of `width * p_sz` bytes. A texture
/// whose row or whose bytes cannot be counted in 32 bits has no layout.
pub fn readback_layout(width: u32, height: u32, p_sz: usize) -> (layout: Option<ReadbackLayout>)
    ensures
        layout == spec_readback_layout(width, height, p_sz),
{
    let limit: u128 = 0xFFFF_FFFF;
    assert(width * p_sz <= 0x1_0000_0000 * 0x1_0000_0000_0000_0000) by (nonlinear_arith)
        requires
            0 <= width < 0x1_0000_0000,
            0 <= p_sz < 0x1_0000_0000_0000_0000,
    ;
    let row: u128 = width as u128 * p_sz as u128;
    if row > limit {
        return None;
    }
    assert(row * height <= 0x1_0000_0000 * 0x1_0000_0000) by (nonlinear_arith)
        requires
            0 <= row < 0x1_0000_0000,
            0 <= height < 0x1_0000_0000,
    ;
    let size: u128 = row * height as u128;
    if size > limit {
        None
    } else {
        Some(ReadbackLayout { size: size as u64, bytes_per_row: row as u32 })
    }
}

/// One pixel of an image: red, green, blue, alpha.
#[derive(Clone, Copy, Debug, PartialEq, Eq, Structural)]
pub struct Rgba {
    pub r: u8,
    pub g: u8,
    pub b: u8,
    pub a: u8,
}

/// Decodes a texture of `width` by `height` texels that was read into `buf`:
/// the pixel at column `c` of row `r` is what `f` makes of `c`, `r` and the
/// buffer. The pixels come row by row.
pub fn decode_pixels<F: Fn(u32, u32, &[u8]) -> Rgba>(width: u32, height: u32, buf: &[u8], f: F)
    -> (pixel_v: Vec<Rgba>)
    requires
        forall|c: u32, r: u32| c < width && r < height ==> call_requires(f, (c, r, buf)),
    ensures
        pixel_v@.len() == width * height,
        forall|c: u32, r: u32|
            c < width && r < height ==> call_ensures(
                f,
                (c, r, buf),
                #[trigger] pixel_v@[r * width + c],
            ),
{
    let mut pixel_v: Vec<Rgba> = Vec::new();
    let mut r: u32 = 0;
    while r < height
        invariant
            r <= height,
            pixel_v@.len() == r * width,
            forall|c: u32, r: u32| c < width && r < height ==> call_requires(f, (c, r, buf)),
            forall|c: u32, q: u32|
                c < width && q < r ==> call_ensures(
                    f,
                    (c, q, buf),
                    #[trigger] pixel_v@[q * width + c],
                ),
        decreases height - r,
    {
        let mut c: u32 = 0;
        while c < width
            invariant
                c <= width,
                r < height,
                pixel_v@.len() == r * width + c,
                forall|c: u32, r: u32| c < width && r < height ==> call_requires(f, (c, r, buf)),
                forall|d: u32, q: u32|
                    d < width && (q < r || (q == r && d < c)) ==> call_ensures(
                        f,
                        (d, q, buf),
                        #[trigger] pixel_v@[q * width + d],
                    ),
            decreases width - c,
        {
            let pixel = f(c, r, buf);
            pixel_v.push(pixel);
            assert forall|d: u32, q: u32|
                d < width && (q < r || (q == r && d < c + 1)) implies call_ensures(
                f,
                (d, q, buf),
                #[trigger] pixel_v@[q * width + d],
            ) by {
                if q < r {
                    assert(q * width + d < r * width) by (nonlinear_arith)
                        requires
                            q + 1 <= r,
                            d < width,
                    ;
                }
            }
            c = c + 1;
        }
        assert((r + 1) * width == r * width + width) by (nonlinear_arith);
        r = r + 1;
    }
    pixel_v
}

/// The byte at which the texel at column `c` of row `r` starts in a buffer
/// of packed rows of `width` texels of `p_sz` bytes.
pub open spec fn spec_texel_offset(width: u32, p_sz: usize, c: u32, r: u32) -> int {
    (r * width + c) * p_sz
}

/// Reads the texel at column `c` of row `r` from a buffer of packed rows of
/// `width` texels of four bytes, red first.
pub fn rgba8_pixel(width: u32, c: u32, r: u32, buf: &[u8]) -> (pixel: Rgba)
    requires
        spec_texel_offset(width, 4, c, r) + 4 <= buf@.len(),
    ensures
        pixel == ({
            let at = spec_texel_offset(width, 4, c, r);
            Rgba { r: buf@[at], g: buf@[at + 1], b: buf@[at + 2], a: buf@[at + 3] }
        }),
{
    assert(0 <= r * width) by (nonlinear_arith)
        requires
            r >= 0,
            width >= 0,
    ;
    assert(buf@.len() == buf.len());
    let at: usize = (r as usize * width as usize + c as usize) * 4;
    Rgba { r: buf[at], g: buf[at + 1], b: buf[at + 2], a: buf[at + 3] }
}

/// What the backend reports of a readback.
#[derive(Clone, Copy, Debug, PartialEq, Eq, Structural)]
pub enum MapSignal {
    /// The buffer was mapped and can be read.
    Mapped,
    /// Mapping failed.
    Failed,
    /// Nothing was reported within the time limit.
    TimedOut,
}

/// The verdict on a readback: it succeeds if the buffer was mapped, and
/// fails as a timeout otherwise. The failure ends this readback and nothing
/// else.
pub fn readback_result(signal: MapSignal) -> (r: Result<(), RenderError>)
    ensures
        r == if signal == MapSignal::Mapped {
            Ok::<(), RenderError>(())
        } else {
            Err::<(), RenderError>(RenderError::ReadbackTimeout)
        },
{
    match signal {
        MapSignal::Mapped => Ok(()),
        MapSignal::Failed => Err(RenderError::ReadbackTimeout),
        MapSignal::TimedOut => Err(RenderError::ReadbackTimeout),
    }
}

} // verus!
