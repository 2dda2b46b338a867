//! Render targets and the state of a render pass: the color and depth formats
//! rendered to, what a render target is set up with, and the per-frame state that
//! draw calls depend on.

pub mod effect;
pub mod transfer;

use vstd::prelude::*;

use crate::error::Error;
use crate::texenv::{Stage, TexEnv};

verus! {

/// The color format to use when rendering on the GPU.
#[derive(Clone, Copy, Debug, PartialEq, Eq)]
pub enum ColorFormat {
    /// 8-bit Red + 8-bit Green + 8-bit Blue + 8-bit Alpha.
    RGBA8,
    /// 8-bit Red + 8-bit Green + 8-bit Blue.
    RGB8,
    /// 5-bit Red + 5-bit Green + 5-bit Blue + 1-bit Alpha.
    RGBA5551,
    /// 5-bit Red + 6-bit Green + 5-bit Blue.
    RGB565,
    /// 4-bit Red + 4-bit Green + 4-bit Blue + 4-bit Alpha.
    RGBA4,
}

impl ColorFormat {
    /// The widths in bits of the red, green, blue and alpha channels of a pixel, as
    /// the format's name gives them.
    pub open spec fn spec_channels(self) -> (u8, u8, u8, u8) {
        match self {
            ColorFormat::RGBA8 => (8, 8, 8, 8),
            ColorFormat::RGB8 => (8, 8, 8, 0),
            ColorFormat::RGBA5551 => (5, 5, 5, 1),
            ColorFormat::RGB565 => (5, 6, 5, 0),
            ColorFormat::RGBA4 => (4, 4, 4, 4),
        }
    }

    /// The raw `GPU_COLORBUF` value that encodes this variant.
    pub open spec fn spec_raw(self) -> u8 {
        match self {
            ColorFormat::RGBA8 => 0,
            ColorFormat::RGB8 => 1,
            ColorFormat::RGBA5551 => 2,
            ColorFormat::RGB565 => 3,
            ColorFormat::RGBA4 => 4,
        }
    }

    /// Each variant encodes to the `GPU_COLORBUF` value that the hardware defines for it.
    pub proof fn lemma_raw_values()
        ensures
            ColorFormat::RGBA8.spec_raw() == 0,
            ColorFormat::RGB8.spec_raw() == 1,
            ColorFormat::RGBA5551.spec_raw() == 2,
            ColorFormat::RGB565.spec_raw() == 3,
            ColorFormat::RGBA4.spec_raw() == 4,
    {
    }

    /// The raw `GPU_COLORBUF` value of this variant.
    pub fn raw(self) -> (r: u8)
        ensures
            r == self.spec_raw(),
    {
        match self {
            ColorFormat::RGBA8 => 0,
            ColorFormat::RGB8 => 1,
            ColorFormat::RGBA5551 => 2,
            ColorFormat::RGB565 => 3,
            ColorFormat::RGBA4 => 4,
        }
    }
}

/// The depth buffer format to use when rendering.
#[derive(Clone, Copy, Debug, PartialEq, Eq)]
pub enum DepthFormat {
    /// 16-bit depth.
    Depth16,
    /// 24-bit depth.
    Depth24,
    /// 24-bit depth + 8-bit Stencil.
    Depth24Stencil8,
}

impl DepthFormat {
    /// The raw `GPU_DEPTHBUF` value that encodes this variant.
    pub open spec fn spec_raw(self) -> u8 {
        match self {
            DepthFormat::Depth16 => 0,
            DepthFormat::Depth24 => 2,
            DepthFormat::Depth24Stencil8 => 3,
        }
    }

    /// Each variant encodes to the `GPU_DEPTHBUF` value that the hardware defines for it.
    pub proof fn lemma_raw_values()
        ensures
            DepthFormat::Depth16.spec_raw() == 0,
            DepthFormat::Depth24.spec_raw() == 2,
            DepthFormat::Depth24Stencil8.spec_raw() == 3,
    {
    }

    /// The raw `GPU_DEPTHBUF` value of this variant.
    pub fn raw(self) -> (r: u8)
        ensures
            r == self.spec_raw(),
    {
        match self {
            DepthFormat::Depth16 => 0,
            DepthFormat::Depth24 => 2,
            DepthFormat::Depth24Stencil8 => 3,
        }
    }
}

/// The pixel format of a screen's framebuffer.
#[derive(Clone, Copy, Debug, PartialEq, Eq)]
pub enum FramebufferFormat {
    /// RGBA8, 4 bytes per pixel.
    Rgba8,
    /// BGR8, 3 bytes per pixel.
    Bgr8,
    /// RGB565, 2 bytes per pixel.
    Rgb565,
    /// RGB5A1, 2 bytes per pixel.
    Rgb5A1,
    /// RGBA4, 2 bytes per pixel.
    Rgba4,
}

impl FramebufferFormat {
    /// The raw `GSPGPU_FramebufferFormat` value that encodes this variant.
    pub open spec fn spec_raw(self) -> u8 {
        match self {
            FramebufferFormat::Rgba8 => 0,
            FramebufferFormat::Bgr8 => 1,
            FramebufferFormat::Rgb565 => 2,
            FramebufferFormat::Rgb5A1 => 3,
            FramebufferFormat::Rgba4 => 4,
        }
    }

    /// Each variant encodes to the `GSPGPU_FramebufferFormat` value that the hardware defines for it.
    pub proof fn lemma_raw_values()
        ensures
            FramebufferFormat::Rgba8.spec_raw() == 0,
            FramebufferFormat::Bgr8.spec_raw() == 1,
            FramebufferFormat::Rgb565.spec_raw() == 2,
            FramebufferFormat::Rgb5A1.spec_raw() == 3,
            FramebufferFormat::Rgba4.spec_raw() == 4,
    {
    }

    /// The raw `GSPGPU_FramebufferFormat` value of this variant.
    pub fn raw(self) -> (r: u8)
        ensures
            r == self.spec_raw(),
    {
        match self {
            FramebufferFormat::Rgba8 => 0,
            FramebufferFormat::Bgr8 => 1,
            FramebufferFormat::Rgb565 => 2,
            FramebufferFormat::Rgb5A1 => 3,
            FramebufferFormat::Rgba4 => 4,
        }
    }
}

impl DepthFormat {
    /// The raw `C3D_DEPTHTYPE` value of this format.
    pub fn as_raw(self) -> (r: i32)
        ensures
            r == self.spec_raw(),
    {
        self.raw() as i32
    }
}

/// The raw `C3D_DEPTHTYPE` value of an optional depth format: `-1` for none.
pub open spec fn spec_depth_raw(depth: Option<DepthFormat>) -> i32 {
    match depth {
        Some(d) => d.spec_raw() as i32,
        None => -1i32,
    }
}

/// The render color format that matches a screen's framebuffer format.
pub open spec fn spec_color_format_of(format: FramebufferFormat) -> ColorFormat {
    match format {
        FramebufferFormat::Rgba8 => ColorFormat::RGBA8,
        FramebufferFormat::Rgb565 => ColorFormat::RGB565,
        FramebufferFormat::Rgb5A1 => ColorFormat::RGBA5551,
        FramebufferFormat::Rgba4 => ColorFormat::RGBA4,
        FramebufferFormat::Bgr8 => ColorFormat::RGB8,
    }
}

impl From<FramebufferFormat> for ColorFormat {
    fn from(format: FramebufferFormat) -> (r: Self)
        ensures
            r == spec_color_format_of(format),
    {
        match format {
            FramebufferFormat::Rgba8 => ColorFormat::RGBA8,
            FramebufferFormat::Rgb565 => ColorFormat::RGB565,
            FramebufferFormat::Rgb5A1 => ColorFormat::RGBA5551,
            FramebufferFormat::Rgba4 => ColorFormat::RGBA4,
            // this one seems unusual, but it appears to work fine:
            FramebufferFormat::Bgr8 => ColorFormat::RGB8,
        }
    }
}

impl vstd::std_specs::convert::FromSpecImpl<FramebufferFormat> for ColorFormat {
    open spec fn obeys_from_spec() -> bool {
        true
    }

    open spec fn from_spec(v: FramebufferFormat) -> ColorFormat {
        spec_color_format_of(v)
    }
}

/// Indicate whether color, depth buffer, or both values should be cleared.
#[derive(Clone, Copy, Debug, PartialEq, Eq, Structural)]
pub struct ClearFlags(u8);

impl ClearFlags {
    /// The raw `C3D_ClearBits`.
    pub closed spec fn spec_bits(self) -> u8 {
        self.0
    }

    /// The flags with exactly the bits `bits`.
    pub closed spec fn spec_from_bits(bits: u8) -> ClearFlags {
        ClearFlags(bits)
    }

    /// Whether every flag of `other` is set in `self`.
    pub open spec fn spec_contains(self, other: ClearFlags) -> bool {
        self.spec_bits() & other.spec_bits() == other.spec_bits()
    }

    /// Clearing everything is clearing the color and the depth: the union of the two
    /// flags is the flag for both, which contains each, while neither of the two
    /// contains the other.
    pub proof fn lemma_all_is_color_and_depth()
        ensures
            ({
                let color = Self::spec_from_bits(1);
                let depth = Self::spec_from_bits(2);
                let all = Self::spec_from_bits(3);
                &&& Self::spec_from_bits(color.spec_bits() | depth.spec_bits()) == all
                &&& all.spec_contains(color) && all.spec_contains(depth)
                &&& !color.spec_contains(depth) && !depth.spec_contains(color)
            }),
    {
        assert(1u8 | 2u8 == 3u8 && 3u8 & 1u8 == 1u8 && 3u8 & 2u8 == 2u8 && 1u8 & 2u8 == 0u8
            && 2u8 & 1u8 == 0u8) by (bit_vector);
    }

    /// Clear the color of the render target.
    #[allow(non_snake_case)]
    pub fn COLOR() -> (r: Self)
        ensures
            r.spec_bits() == 1,
            r == Self::spec_from_bits(1),
    {
        ClearFlags(1)
    }

    /// Clear the depth buffer value of the render target.
    #[allow(non_snake_case)]
    pub fn DEPTH() -> (r: Self)
        ensures
            r.spec_bits() == 2,
            r == Self::spec_from_bits(2),
    {
        ClearFlags(2)
    }

    /// Clear both color and depth buffer values of the render target.
    #[allow(non_snake_case)]
    pub fn ALL() -> (r: Self)
        ensures
            r.spec_bits() == 3,
            r == Self::spec_from_bits(3),
    {
        ClearFlags(3)
    }

    /// The raw `C3D_ClearBits`.
    pub fn bits(&self) -> (r: u8)
        ensures
            r == self.spec_bits(),
    {
        self.0
    }

    /// The flags set in either `self` or `other`.
    pub fn union(self, other: Self) -> (r: Self)
        ensures
            r.spec_bits() == self.spec_bits() | other.spec_bits(),
    {
        ClearFlags(self.0 | other.0)
    }

    /// Whether every flag of `other` is set in `self`.
    pub fn contains(&self, other: Self) -> (r: bool)
        ensures
            r == self.spec_contains(other),
    {
        self.0 & other.0 == other.0
    }
}

/// What a render target is created with: its size as `citro3d` takes it, its
/// color format, its raw depth format, and the transfer flags that send its
/// frames to the screen.
#[derive(Clone, Copy, Debug)]
pub struct TargetParams {
    /// Width in pixels.
    pub width: i32,
    /// Height in pixels.
    pub height: i32,
    /// Color format, matching the screen's framebuffer.
    pub color_format: ColorFormat,
    /// Raw depth format, `-1` for none.
    pub depth: i32,
    /// Transfer flags for sending frames to the screen.
    pub transfer_flags: u32,
}

/// The transfer flags that send frames of color format `color_format` to the screen:
/// input and output in the transfer format of the color format.
pub open spec fn spec_output_flags(color_format: ColorFormat) -> u32 {
    let f = transfer::spec_format_of(color_format).spec_raw();
    (0u32 | (f << 8u32)) | (f << 12u32)
}

/// A render target sends its frames to the screen in the transfer format whose raw
/// value it holds in both format fields of the flags: 0 for an RGBA8 framebuffer,
/// 1 for BGR8, 2 for RGB565, 3 for RGB5A1 and 4 for RGBA4, with no other flag set.
pub proof fn lemma_output_flags(framebuffer: FramebufferFormat)
    ensures
        spec_output_flags(spec_color_format_of(framebuffer)) == match framebuffer {
            FramebufferFormat::Rgba8 => 0u32,
            FramebufferFormat::Bgr8 => 0x1100u32,
            FramebufferFormat::Rgb565 => 0x2200u32,
            FramebufferFormat::Rgb5A1 => 0x3300u32,
            FramebufferFormat::Rgba4 => 0x4400u32,
        },
{
    assert((0u32 | (0u32 << 8u32)) | (0u32 << 12u32) == 0u32) by (bit_vector);
    assert((0u32 | (1u32 << 8u32)) | (1u32 << 12u32) == 0x1100u32) by (bit_vector);
    assert((0u32 | (2u32 << 8u32)) | (2u32 << 12u32) == 0x2200u32) by (bit_vector);
    assert((0u32 | (3u32 << 8u32)) | (3u32 << 12u32) == 0x3300u32) by (bit_vector);
    assert((0u32 | (4u32 << 8u32)) | (4u32 << 12u32) == 0x4400u32) by (bit_vector);
}

impl TargetParams {
    /// The parameters of a render target of the given size, for a screen whose
    /// framebuffer has format `framebuffer`.
    ///
    /// # Errors
    ///
    /// [`Error::InvalidSize`] if the width or height does not fit in a C `int`.
    pub fn new(
        width: usize,
        height: usize,
        framebuffer: FramebufferFormat,
        depth_format: Option<DepthFormat>,
    ) -> (r: Result<TargetParams, Error>)
        ensures
            r is Ok <==> width <= i32::MAX && height <= i32::MAX,
            r matches Err(e) ==> e == Error::InvalidSize,
            r matches Ok(p) ==> {
                &&& p.width == width && p.height == height
                &&& p.color_format == spec_color_format_of(framebuffer)
                &&& p.depth == spec_depth_raw(depth_format)
                &&& p.transfer_flags == spec_output_flags(p.color_format)
            },
    {
        let color_format: ColorFormat = ColorFormat::from(framebuffer);
        if width > i32::MAX as usize || height > i32::MAX as usize {
            return Err(Error::InvalidSize);
        }
        let depth = match depth_format {
            Some(d) => d.as_raw(),
            None => -1,
        };
        let flags = transfer::Flags::default().in_format(transfer::Format::from(color_format)).out_format(
            transfer::Format::from(color_format),
        );
        Ok(TargetParams {
            width: width as i32,
            height: height as i32,
            color_format,
            depth,
            transfer_flags: flags.bits(),
        })
    }
}

/// The state of a render pass: the texture combiner stages configured during the
/// pass, and whether a shader program is bound (draw calls and uniform bindings
/// need one).
#[derive(Debug)]
pub struct RenderPass {
    texenvs: [Option<TexEnv>; 6],
    is_program_bound: bool,
}

impl RenderPass {
    /// The combiner stages touched during the pass.
    pub closed spec fn spec_texenvs(self) -> Seq<Option<TexEnv>> {
        self.texenvs@
    }

    /// Whether a shader program is bound.
    pub closed spec fn spec_program_bound(self) -> bool {
        self.is_program_bound
    }

    /// A new pass: no program bound, no combiner stage touched.
    pub fn new() -> (r: Self)
        ensures
            !r.spec_program_bound(),
            r.spec_texenvs() == Seq::new(6, |i: int| None::<TexEnv>),
    {
        let r = RenderPass { texenvs: [None, None, None, None, None, None], is_program_bound: false };
        assert(r.texenvs@ =~= Seq::new(6, |i: int| None::<TexEnv>));
        r
    }

    /// Record that a shader program is bound for the following draw calls.
    pub fn bind_program(&mut self)
        ensures
            final(self).spec_program_bound(),
            final(self).spec_texenvs() == old(self).spec_texenvs(),
    {
        self.is_program_bound = true;
    }

    /// Whether draw calls and uniform bindings may be issued, i.e. a shader program
    /// was bound.
    pub fn is_program_bound(&self) -> (r: bool)
        ensures
            r == self.spec_program_bound(),
    {
        self.is_program_bound
    }

    /// Retrieve the [`TexEnv`] for the given stage, initializing it first if necessary.
    pub fn texenv(&mut self, stage: Stage) -> (r: &mut TexEnv)
        ensures
            old(self).spec_texenvs()[stage.spec_index() as int] matches Some(t) ==> *r == t,
            old(self).spec_texenvs()[stage.spec_index() as int] is None ==> r.spec_is_fresh(),
            final(self).spec_texenvs() == old(self).spec_texenvs().update(
                stage.spec_index() as int,
                Some(*final(r)),
            ),
            final(self).spec_program_bound() == old(self).spec_program_bound(),
    {
        let i = stage.index();
        if self.texenvs[i].is_none() {
            self.texenvs[i] = Some(TexEnv::new());
        }
        self.texenvs[i].as_mut().unwrap()
    }
}

} // verus!
