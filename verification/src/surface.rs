//! Setting up the surface that frames are presented on: which format is
//! taken, how the surface is configured, and how a resize changes that.
use vstd::prelude::*;
use crate::err::RenderError;
use crate::pipeline::TextureFormat;

verus! {

/// How frames are handed to the display.
#[derive(Clone, Copy, Debug, PartialEq, Eq, Structural)]
pub enum PresentMode {
    AutoVsync,
    AutoNoVsync,
    Fifo,
    FifoRelaxed,
    Immediate,
    Mailbox,
}

/// How the alpha channel of a frame is treated when it is shown.
#[derive(Clone, Copy, Debug, PartialEq, Eq, Structural)]
pub enum CompositeAlphaMode {
    Auto,
    Opaque,
    PreMultiplied,
    PostMultiplied,
    Inherit,
}

/// Number of frames that may wait for presentation.
pub const FRAME_LATENCY: u32 = 2;

/// The configuration of a surface. The surface is drawn into and nothing
/// else.
#[derive(Clone, Copy, Debug, PartialEq, Eq, Structural)]
pub struct SurfaceConfiguration {
    pub format: TextureFormat,
    pub width: u32,
    pub height: u32,
    pub present_mode: PresentMode,
    pub alpha_mode: CompositeAlphaMode,
    pub desired_maximum_frame_latency: u32,
}

/// Position of the first sRGB format in `formats`, or the length of
/// `formats` if there is none.
pub open spec fn first_srgb(formats: Seq<TextureFormat>) -> int
    decreases formats.len(),
{
    if formats.len() == 0 {
        0
    } else if formats[0].spec_is_srgb() {
        0
    } else {
        1 + first_srgb(formats.drop_first())
    }
}

/// `first_srgb` is the least position of an sRGB format.
pub proof fn lemma_first_srgb(formats: Seq<TextureFormat>)
    ensures
        0 <= first_srgb(formats) <= formats.len(),
        first_srgb(formats) < formats.len() ==> formats[first_srgb(formats)].spec_is_srgb(),
        forall|i: int| 0 <= i < first_srgb(formats) ==> !(#[trigger] formats[i]).spec_is_srgb(),
    decreases formats.len(),
{
    if formats.len() > 0 && !formats[0].spec_is_srgb() {
        let rest = formats.drop_first();
        lemma_first_srgb(rest);
        assert forall|i: int| 0 <= i < first_srgb(formats) implies !(
        #[trigger] formats[i]).spec_is_srgb() by {
            if i > 0 {
                assert(formats[i] == rest[i - 1]);
            }
        }
    }
}

/// Picks the format of the surface: the first sRGB format among those that
/// the surface offers, in the order offered. The shaders assume an sRGB
/// target. Without such a format the renderer cannot be built.
pub fn select_surface_format(formats: &Vec<TextureFormat>) -> (r: Result<
    TextureFormat,
    RenderError,
>)
    ensures
        first_srgb(formats@) < formats@.len() ==> r == Ok::<TextureFormat, RenderError>(
            formats@[first_srgb(formats@)],
        ),
        first_srgb(formats@) >= formats@.len() ==> r == Err::<TextureFormat, RenderError>(
            RenderError::DeviceInit,
        ),
{
    let mut i: usize = 0;
    assert(formats@.subrange(0, formats@.len() as int) =~= formats@);
    while i < formats.len()
        invariant
            i <= formats.len(),
            first_srgb(formats@) == i + first_srgb(formats@.subrange(i as int, formats@.len() as int)),
        decreases formats.len() - i,
    {
        let ghost rest = formats@.subrange(i as int, formats@.len() as int);
        if formats[i].is_srgb() {
            return Ok(formats[i]);
        }
        assert(rest.drop_first() =~= formats@.subrange(i + 1, formats@.len() as int));
        i = i + 1;
    }
    Err(RenderError::DeviceInit)
}

/// What a surface offers to an adapter. All three lists are empty when the
/// two do not go together.
#[derive(Clone, Debug, PartialEq, Eq)]
pub struct SurfaceCapabilities {
    pub formats: Vec<TextureFormat>,
    pub present_modes: Vec<PresentMode>,
    pub alpha_modes: Vec<CompositeAlphaMode>,
}

/// The configuration for a surface of `width` by `height` pixels with the
/// capabilities `caps`, if there is one.
pub open spec fn spec_configure(
    formats: Seq<TextureFormat>,
    present_modes: Seq<PresentMode>,
    alpha_modes: Seq<CompositeAlphaMode>,
    width: u32,
    height: u32,
) -> Result<SurfaceConfiguration, RenderError> {
    if first_srgb(formats) < formats.len() && present_modes.len() > 0 && alpha_modes.len() > 0 {
        Ok(
            SurfaceConfiguration {
                format: formats[first_srgb(formats)],
                width,
                height,
                present_mode: present_modes[0],
                alpha_mode: alpha_modes[0],
                desired_maximum_frame_latency: FRAME_LATENCY,
            },
        )
    } else {
        Err(RenderError::DeviceInit)
    }
}

/// Configures a surface of `width` by `height` pixels: the first sRGB format
/// and the first present and alpha mode that the surface offers. If it offers
/// no sRGB format, or no mode at all, the renderer cannot be built.
pub fn configure(caps: &SurfaceCapabilities, width: u32, height: u32) -> (r: Result<
    SurfaceConfiguration,
    RenderError,
>)
    ensures
        r == spec_configure(
            caps.formats@,
            caps.present_modes@,
            caps.alpha_modes@,
            width,
            height,
        ),
{
    match select_surface_format(&caps.formats) {
        Ok(format) => {
            if caps.present_modes.len() > 0 && caps.alpha_modes.len() > 0 {
                Ok(
                    SurfaceConfiguration {
                        format,
                        width,
                        height,
                        present_mode: caps.present_modes[0],
                        alpha_mode: caps.alpha_modes[0],
                        desired_maximum_frame_latency: FRAME_LATENCY,
                    },
                )
            } else {
                Err(RenderError::DeviceInit)
            }
        },
        Err(e) => Err(e),
    }
}

/// What becomes of the attempt to get a device, from what the backend
/// reports: without an adapter or without a device the renderer cannot be
/// built.
pub fn device_outcome(adapter_found: bool, device_granted: bool) -> (r: Result<(), RenderError>)
    ensures
        r == if adapter_found && device_granted {
            Ok::<(), RenderError>(())
        } else {
            Err::<(), RenderError>(RenderError::DeviceInit)
        },
{
    if adapter_found && device_granted {
        Ok(())
    } else {
        Err(RenderError::DeviceInit)
    }
}

/// The set-up of the engine for a window of a given inner size.
#[derive(Clone, Copy, Debug, PartialEq, Eq, Structural)]
pub struct EngineBuilder {
    pub width: u32,
    pub height: u32,
}

impl EngineBuilder {
    /// Starts the set-up for a window whose inner size is `width` by
    /// `height` pixels.
    pub fn from_window(width: u32, height: u32) -> (builder: EngineBuilder)
        ensures
            builder == (EngineBuilder { width, height }),
    {
        EngineBuilder { width, height }
    }

    /// What the set-up comes to: with an adapter and a device, the
    /// configuration of the surface at the window's size; without either, or
    /// without a configuration, no renderer.
    pub open spec fn spec_build(
        self,
        adapter_found: bool,
        device_granted: bool,
        formats: Seq<TextureFormat>,
        present_modes: Seq<PresentMode>,
        alpha_modes: Seq<CompositeAlphaMode>,
    ) -> Result<SurfaceConfiguration, RenderError> {
        if adapter_found && device_granted {
            spec_configure(formats, present_modes, alpha_modes, self.width, self.height)
        } else {
            Err(RenderError::DeviceInit)
        }
    }

    /// Ends the set-up, from what the backend reports: whether it found an
    /// adapter, whether the adapter granted a device, and what the surface
    /// offers. The result is the configuration of the surface at the window's
    /// size, with the first sRGB format and the first present and alpha mode
    /// offered. Every failure is `RenderError::DeviceInit` and final.
    pub fn build(self, adapter_found: bool, device_granted: bool, caps: &SurfaceCapabilities) -> (r:
        Result<SurfaceConfiguration, RenderError>)
        ensures
            r == self.spec_build(
                adapter_found,
                device_granted,
                caps.formats@,
                caps.present_modes@,
                caps.alpha_modes@,
            ),
    {
        match device_outcome(adapter_found, device_granted) {
            Ok(()) => configure(caps, self.width, self.height),
            Err(e) => Err(e),
        }
    }
}

impl SurfaceConfiguration {
    /// The configuration after a resize to `width` by `height`: the new size
    /// is taken if neither side is zero, otherwise nothing changes.
    pub open spec fn spec_resize(self, width: u32, height: u32) -> SurfaceConfiguration {
        if width > 0 && height > 0 {
            SurfaceConfiguration { width, height, ..self }
        } else {
            self
        }
    }

    /// Takes a new size. Returns whether the surface has to be configured
    /// anew, which is the case if neither side is zero.
    pub fn resize(&mut self, width: u32, height: u32) -> (changed: bool)
        ensures
            *final(self) == old(self).spec_resize(width, height),
            changed == (width > 0 && height > 0),
    {
        if width > 0 && height > 0 {
            self.width = width;
            self.height = height;
            true
        } else {
            false
        }
    }
}

} // verus!
