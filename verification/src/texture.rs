//! Texture parameters, and the size rules that textures and the images loaded into
//! them must follow.

use vstd::prelude::*;

use crate::error::Error;

verus! {

/// The maximum number of textures that can be bound at once
pub const TEXTURE_COUNT: usize = 4;

/// Minimum width and height of a texture
pub const MIN_TEX_SIZE: u16 = 8;

/// Maximum width and height of a texture
pub const MAX_TEX_SIZE: u16 = 1024;

/// The pixel format of a texture.
#[derive(Clone, Copy, Debug, PartialEq, Eq)]
pub enum ColorFormat {
    /// 8-bit Red + 8-bit Green + 8-bit Blue + 8-bit Alpha.
    Rgba8,
    /// 8-bit Red + 8-bit Green + 8-bit Blue.
    Rgb8,
    /// 5-bit Red + 5-bit Green + 5-bit Blue + 1-bit Alpha.
    Rgba5551,
    /// 5-bit Red + 6-bit Green + 5-bit Blue.
    Rgb565,
    /// 4-bit Red + 4-bit Green + 4-bit Blue + 4-bit Alpha.
    Rgba4,
    /// 8-bit Luminance + 8-bit Alpha.
    La8,
    /// 8-bit Hi + 8-bit Lo.
    HiLo8,
    /// 8-bit Luminance.
    L8,
    /// 8-bit Alpha.
    A8,
    /// 4-bit Luminance + 4-bit Alpha.
    La4,
    /// 4-bit Luminance.
    L4,
    /// 4-bit Alpha.
    A4,
    /// ETC1 texture compression.
    Etc1,
    /// ETC1 texture compression + 4-bit Alpha.
    Etc1A4,
}

impl ColorFormat {
    /// The raw `GPU_TEXCOLOR` value that encodes this variant.
    pub open spec fn spec_raw(self) -> u8 {
        match self {
            ColorFormat::Rgba8 => 0x0,
            ColorFormat::Rgb8 => 0x1,
            ColorFormat::Rgba5551 => 0x2,
            ColorFormat::Rgb565 => 0x3,
            ColorFormat::Rgba4 => 0x4,
            ColorFormat::La8 => 0x5,
            ColorFormat::HiLo8 => 0x6,
            ColorFormat::L8 => 0x7,
            ColorFormat::A8 => 0x8,
            ColorFormat::La4 => 0x9,
            ColorFormat::L4 => 0xA,
            ColorFormat::A4 => 0xB,
            ColorFormat::Etc1 => 0xC,
            ColorFormat::Etc1A4 => 0xD,
        }
    }

    /// Each variant encodes to the `GPU_TEXCOLOR` value that the hardware defines for it.
    pub proof fn lemma_raw_values()
        ensures
            ColorFormat::Rgba8.spec_raw() == 0x0,
            ColorFormat::Rgb8.spec_raw() == 0x1,
            ColorFormat::Rgba5551.spec_raw() == 0x2,
            ColorFormat::Rgb565.spec_raw() == 0x3,
            ColorFormat::Rgba4.spec_raw() == 0x4,
            ColorFormat::La8.spec_raw() == 0x5,
            ColorFormat::HiLo8.spec_raw() == 0x6,
            ColorFormat::L8.spec_raw() == 0x7,
            ColorFormat::A8.spec_raw() == 0x8,
            ColorFormat::La4.spec_raw() == 0x9,
            ColorFormat::L4.spec_raw() == 0xA,
            ColorFormat::A4.spec_raw() == 0xB,
            ColorFormat::Etc1.spec_raw() == 0xC,
            ColorFormat::Etc1A4.spec_raw() == 0xD,
    {
    }

    /// The raw `GPU_TEXCOLOR` value of this variant.
    pub fn raw(self) -> (r: u8)
        ensures
            r == self.spec_raw(),
    {
        match self {
            ColorFormat::Rgba8 => 0x0,
            ColorFormat::Rgb8 => 0x1,
            ColorFormat::Rgba5551 => 0x2,
            ColorFormat::Rgb565 => 0x3,
            ColorFormat::Rgba4 => 0x4,
            ColorFormat::La8 => 0x5,
            ColorFormat::HiLo8 => 0x6,
            ColorFormat::L8 => 0x7,
            ColorFormat::A8 => 0x8,
            ColorFormat::La4 => 0x9,
            ColorFormat::L4 => 0xA,
            ColorFormat::A4 => 0xB,
            ColorFormat::Etc1 => 0xC,
            ColorFormat::Etc1A4 => 0xD,
        }
    }
}

/// The kind of texture.
#[derive(Clone, Copy, Debug, PartialEq, Eq)]
pub enum Mode {
    /// 2D texture.
    Tex2D,
    /// Cube map.
    CubeMap,
    /// 2D shadow map.
    Shadow2D,
    /// Projection texture.
    Projection,
    /// Cube shadow map.
    ShadowCube,
    /// Disabled texture.
    Disabled,
}

impl Mode {
    /// The raw `GPU_TEXTURE_MODE_PARAM` value that encodes this variant.
    pub open spec fn spec_raw(self) -> u8 {
        match self {
            Mode::Tex2D => 0,
            Mode::CubeMap => 1,
            Mode::Shadow2D => 2,
            Mode::Projection => 3,
            Mode::ShadowCube => 4,
            Mode::Disabled => 5,
        }
    }

    /// Each variant encodes to the `GPU_TEXTURE_MODE_PARAM` value that the hardware defines for it.
    pub proof fn lemma_raw_values()
        ensures
            Mode::Tex2D.spec_raw() == 0,
            Mode::CubeMap.spec_raw() == 1,
            Mode::Shadow2D.spec_raw() == 2,
            Mode::Projection.spec_raw() == 3,
            Mode::ShadowCube.spec_raw() == 4,
            Mode::Disabled.spec_raw() == 5,
    {
    }

    /// The raw `GPU_TEXTURE_MODE_PARAM` value of this variant.
    pub fn raw(self) -> (r: u8)
        ensures
            r == self.spec_raw(),
    {
        match self {
            Mode::Tex2D => 0,
            Mode::CubeMap => 1,
            Mode::Shadow2D => 2,
            Mode::Projection => 3,
            Mode::ShadowCube => 4,
            Mode::Disabled => 5,
        }
    }
}

impl ColorFormat {
    /// The number of bits each pixel takes.
    pub open spec fn spec_bits_per_pixel(self) -> u32 {
        match self {
            ColorFormat::Rgba8 => 32,
            ColorFormat::Rgb8 => 24,
            ColorFormat::Rgba5551 | ColorFormat::Rgb565 | ColorFormat::Rgba4 | ColorFormat::La8
            | ColorFormat::HiLo8 => 16,
            ColorFormat::L8 | ColorFormat::A8 | ColorFormat::La4 | ColorFormat::Etc1A4 => 8,
            ColorFormat::L4 | ColorFormat::A4 | ColorFormat::Etc1 => 4,
        }
    }

    /// The number of bits each pixel takes.
    pub fn bits_per_pixel(self) -> (r: u32)
        ensures
            r == self.spec_bits_per_pixel(),
    {
        match self {
            ColorFormat::Rgba8 => 32,
            ColorFormat::Rgb8 => 24,
            ColorFormat::Rgba5551 | ColorFormat::Rgb565 | ColorFormat::Rgba4 | ColorFormat::La8
            | ColorFormat::HiLo8 => 16,
            ColorFormat::L8 | ColorFormat::A8 | ColorFormat::La4 | ColorFormat::Etc1A4 => 8,
            ColorFormat::L4 | ColorFormat::A4 | ColorFormat::Etc1 => 4,
        }
    }
}

/// The widths in bits of the channels of a pixel of `format`, as its name gives them
/// (red, green, blue, alpha; luminance and alpha; hi and lo). The ETC1 formats are
/// compressed to half a byte per pixel, with half a byte of alpha for `Etc1A4`.
pub open spec fn spec_channel_bits(format: ColorFormat) -> Seq<u32> {
    match format {
        ColorFormat::Rgba8 => seq![8u32, 8, 8, 8],
        ColorFormat::Rgb8 => seq![8u32, 8, 8],
        ColorFormat::Rgba5551 => seq![5u32, 5, 5, 1],
        ColorFormat::Rgb565 => seq![5u32, 6, 5],
        ColorFormat::Rgba4 => seq![4u32, 4, 4, 4],
        ColorFormat::La8 => seq![8u32, 8],
        ColorFormat::HiLo8 => seq![8u32, 8],
        ColorFormat::L8 => seq![8u32],
        ColorFormat::A8 => seq![8u32],
        ColorFormat::La4 => seq![4u32, 4],
        ColorFormat::L4 => seq![4u32],
        ColorFormat::A4 => seq![4u32],
        ColorFormat::Etc1 => seq![4u32],
        ColorFormat::Etc1A4 => seq![4u32, 4],
    }
}

/// The sum of `widths`.
pub open spec fn spec_sum(widths: Seq<u32>) -> int
    decreases widths.len(),
{
    if widths.len() == 0 {
        0
    } else {
        widths.last() + spec_sum(widths.drop_last())
    }
}

/// A pixel takes as many bits as its channels together.
pub proof fn lemma_bits_per_pixel_sums_channels(format: ColorFormat)
    ensures
        format.spec_bits_per_pixel() == spec_sum(spec_channel_bits(format)),
{
    let w = spec_channel_bits(format);
    reveal_with_fuel(spec_sum, 5);
    assert(w.drop_last().drop_last().drop_last().drop_last().len() == 0 || w.len() < 4);
    if w.len() == 4 {
        assert(w.drop_last().drop_last().drop_last().drop_last() =~= Seq::<u32>::empty());
    }
}

/// The full-size image of a `width` by `height` texture takes 4 bytes per pixel in
/// RGBA8, 3 in RGB8, 2 in the 16-bit formats, 1 in the 8-bit formats and half a byte
/// in the 4-bit formats.
pub proof fn lemma_image_sizes(format: ColorFormat, width: u16, height: u16)
    ensures
        ({
            let pixels = width * height;
            spec_image_size(format, width, height) == match format {
                ColorFormat::Rgba8 => pixels * 4,
                ColorFormat::Rgb8 => pixels * 3,
                ColorFormat::Rgba5551 | ColorFormat::Rgb565 | ColorFormat::Rgba4
                | ColorFormat::La8 | ColorFormat::HiLo8 => pixels * 2,
                ColorFormat::L8 | ColorFormat::A8 | ColorFormat::La4 | ColorFormat::Etc1A4 => pixels,
                ColorFormat::L4 | ColorFormat::A4 | ColorFormat::Etc1 => pixels / 2,
            }
        }),
{
    let p: int = width * height;
    assert(p >= 0) by (nonlinear_arith)
        requires
            p == width * height,
    ;
    assert((p * 32) / 8 == p * 4 && (p * 24) / 8 == p * 3 && (p * 16) / 8 == p * 2 && (p * 8) / 8
        == p && (p * 4) / 8 == p / 2) by (nonlinear_arith)
        requires
            p >= 0,
    ;
}

/// A face of a texture to load an image into; a 2D texture has the first one only.
#[derive(Clone, Copy, Debug, PartialEq, Eq)]
pub enum Face {
    /// Positive X face of a cube map, and the single face of a 2D texture.
    PositiveX,
    /// Negative X face of a cube map.
    NegativeX,
    /// Positive Y face of a cube map.
    PositiveY,
    /// Negative Y face of a cube map.
    NegativeY,
    /// Positive Z face of a cube map.
    PositiveZ,
    /// Negative Z face of a cube map.
    NegativeZ,
}

impl Face {
    /// The raw `GPU_TEXFACE` value that encodes this variant.
    pub open spec fn spec_raw(self) -> u8 {
        match self {
            Face::PositiveX => 0,
            Face::NegativeX => 1,
            Face::PositiveY => 2,
            Face::NegativeY => 3,
            Face::PositiveZ => 4,
            Face::NegativeZ => 5,
        }
    }

    /// Each variant encodes to the `GPU_TEXFACE` value that the hardware defines for it.
    pub proof fn lemma_raw_values()
        ensures
            Face::PositiveX.spec_raw() == 0,
            Face::NegativeX.spec_raw() == 1,
            Face::PositiveY.spec_raw() == 2,
            Face::NegativeY.spec_raw() == 3,
            Face::PositiveZ.spec_raw() == 4,
            Face::NegativeZ.spec_raw() == 5,
    {
    }

    /// The raw `GPU_TEXFACE` value of this variant.
    pub fn raw(self) -> (r: u8)
        ensures
            r == self.spec_raw(),
    {
        match self {
            Face::PositiveX => 0,
            Face::NegativeX => 1,
            Face::PositiveY => 2,
            Face::NegativeY => 3,
            Face::PositiveZ => 4,
            Face::NegativeZ => 5,
        }
    }
}

impl Default for Face {
    fn default() -> (r: Self)
        ensures
            r == Face::PositiveX,
    {
        Face::PositiveX
    }
}

/// Texture filtering.
#[derive(Clone, Copy, Debug, PartialEq, Eq)]
pub enum Filter {
    /// Nearest-neighbour sampling.
    Nearest,
    /// Linear interpolation.
    Linear,
}

impl Filter {
    /// The raw `GPU_TEXTURE_FILTER_PARAM` value that encodes this variant.
    pub open spec fn spec_raw(self) -> u8 {
        match self {
            Filter::Nearest => 0,
            Filter::Linear => 1,
        }
    }

    /// Each variant encodes to the `GPU_TEXTURE_FILTER_PARAM` value that the hardware defines for it.
    pub proof fn lemma_raw_values()
        ensures
            Filter::Nearest.spec_raw() == 0,
            Filter::Linear.spec_raw() == 1,
    {
    }

    /// The raw `GPU_TEXTURE_FILTER_PARAM` value of this variant.
    pub fn raw(self) -> (r: u8)
        ensures
            r == self.spec_raw(),
    {
        match self {
            Filter::Nearest => 0,
            Filter::Linear => 1,
        }
    }
}

/// Texture wrapping at the edges.
#[derive(Clone, Copy, Debug, PartialEq, Eq)]
pub enum Wrap {
    /// Clamp to the edge color.
    ClampToEdge,
    /// Clamp to the border color.
    ClampToBorder,
    /// Repeat the texture.
    Repeat,
    /// Repeat the texture, mirrored.
    MirroredRepeat,
}

impl Wrap {
    /// The raw `GPU_TEXTURE_WRAP_PARAM` value that encodes this variant.
    pub open spec fn spec_raw(self) -> u8 {
        match self {
            Wrap::ClampToEdge => 0,
            Wrap::ClampToBorder => 1,
            Wrap::Repeat => 2,
            Wrap::MirroredRepeat => 3,
        }
    }

    /// Each variant encodes to the `GPU_TEXTURE_WRAP_PARAM` value that the hardware defines for it.
    pub proof fn lemma_raw_values()
        ensures
            Wrap::ClampToEdge.spec_raw() == 0,
            Wrap::ClampToBorder.spec_raw() == 1,
            Wrap::Repeat.spec_raw() == 2,
            Wrap::MirroredRepeat.spec_raw() == 3,
    {
    }

    /// The raw `GPU_TEXTURE_WRAP_PARAM` value of this variant.
    pub fn raw(self) -> (r: u8)
        ensures
            r == self.spec_raw(),
    {
        match self {
            Wrap::ClampToEdge => 0,
            Wrap::ClampToBorder => 1,
            Wrap::Repeat => 2,
            Wrap::MirroredRepeat => 3,
        }
    }
}

/// A texture unit of the GPU that a texture can be bound to.
#[derive(Clone, Copy, Debug, PartialEq, Eq)]
pub enum Unit {
    /// Texture unit 0.
    Unit0,
    /// Texture unit 1.
    Unit1,
    /// Texture unit 2.
    Unit2,
}

impl Unit {
    /// The raw `texture unit number` value that encodes this variant.
    pub open spec fn spec_raw(self) -> u8 {
        match self {
            Unit::Unit0 => 0,
            Unit::Unit1 => 1,
            Unit::Unit2 => 2,
        }
    }

    /// Each variant encodes to the `texture unit number` value that the hardware defines for it.
    pub proof fn lemma_raw_values()
        ensures
            Unit::Unit0.spec_raw() == 0,
            Unit::Unit1.spec_raw() == 1,
            Unit::Unit2.spec_raw() == 2,
    {
    }

    /// The raw `texture unit number` value of this variant.
    pub fn raw(self) -> (r: u8)
        ensures
            r == self.spec_raw(),
    {
        match self {
            Unit::Unit0 => 0,
            Unit::Unit1 => 1,
            Unit::Unit2 => 2,
        }
    }
}

impl Face {
    /// The face of a 2D texture.
    #[allow(non_snake_case)]
    pub fn TEX2D() -> (r: Face)
        ensures
            r == Face::PositiveX,
    {
        Face::PositiveX
    }
}

/// Whether `size` is a valid texture width or height: a power of two from 8 to 1024.
pub open spec fn spec_valid_size(size: u16) -> bool {
    size == 8 || size == 16 || size == 32 || size == 64 || size == 128 || size == 256 || size == 512
        || size == 1024
}

/// Checks that `size` is a power of two between [`MIN_TEX_SIZE`] and [`MAX_TEX_SIZE`].
pub fn check_texture_size(size: u16) -> (r: bool)
    ensures
        r == spec_valid_size(size),
{
    if size < MIN_TEX_SIZE || size > MAX_TEX_SIZE {
        return false;
    }
    proof {
        assert(8 <= size <= 1024 ==> ((size & ((size - 1) as u16)) > 0 <==> !(size == 8 || size == 16
            || size == 32 || size == 64 || size == 128 || size == 256 || size == 512 || size
            == 1024))) by (bit_vector);
    }
    if (size & (size - 1)) > 0 {
        return false;
    }
    true
}

/// The base-2 logarithm of `n`, rounded down.
pub open spec fn spec_log2(n: nat) -> nat
    decreases n,
{
    if n <= 1 {
        0
    } else {
        1 + spec_log2(n / 2)
    }
}

/// Two to the power `k`.
pub open spec fn spec_pow2(k: nat) -> nat
    decreases k,
{
    if k == 0 {
        1
    } else {
        2 * spec_pow2((k - 1) as nat)
    }
}

proof fn lemma_log2_bound(n: nat, k: nat)
    requires
        0 < n < spec_pow2(k),
    ensures
        spec_log2(n) < k,
    decreases k,
{
    if n > 1 {
        if k == 0 {
            assert(false);
        }
        lemma_log2_bound(n / 2, (k - 1) as nat);
    }
}

/// The highest mipmap level of a texture of the given size: the base-2 logarithm of
/// its smaller side, less 3 (`C3D_TexCalcMaxLevel`).
pub fn tex_calc_max_level(width: u32, height: u32) -> (r: i32)
    requires
        width > 0,
        height > 0,
    ensures
        r == spec_log2(if width < height { width as nat } else { height as nat }) - 3,
{
    let m = if width < height { width } else { height };
    proof {
        assert(spec_pow2(32) == 0x1_0000_0000) by {
            reveal_with_fuel(spec_pow2, 33);
        }
        lemma_log2_bound(m as nat, 32);
    }
    let mut n = m;
    let mut log: i32 = 0;
    while n > 1
        invariant
            0 < n <= m,
            0 <= log <= 32,
            log + spec_log2(n as nat) == spec_log2(m as nat),
            spec_log2(m as nat) <= 32,
        decreases n,
    {
        n = n / 2;
        log = log + 1;
    }
    log - 3
}

/// The byte size of the full-size (level 0) image of a `width` by `height`
/// texture of pixel format `format`.
pub open spec fn spec_image_size(format: ColorFormat, width: u16, height: u16) -> int {
    width * height * format.spec_bits_per_pixel() / 8
}

/// The size of mipmap level `level` of an image whose full size is `size`
/// (`C3D_TexCalcLevelSize`): each level has a quarter of the pixels of the one
/// before.
pub open spec fn spec_level_size(size: u64, level: u64) -> u64 {
    size >> (2 * level) as u64
}

/// The size of all mipmap levels up to `max_level` of an image whose full size is
/// `size` (`C3D_TexCalcTotalSize`).
pub open spec fn spec_total_size(size: u64, max_level: u64) -> int {
    (size - spec_level_size(size, (max_level + 1) as u64)) * 4 / 3
}

/// Parameters used to initialize a texture.
#[derive(Debug, Clone, Copy)]
pub struct TextureParameters {
    /// Width in pixels, between 8 and 1024 (inclusive).
    pub width: u16,
    /// Height in pixels, between 8 and 1024 (inclusive).
    pub height: u16,
    /// Highest mipmap level.
    pub max_level: u8,
    /// Pixel format.
    pub format: ColorFormat,
    /// Kind of texture.
    pub mode: Mode,
    /// Whether the texture lives in VRAM.
    pub on_vram: bool,
}

impl TextureParameters {
    /// `TextureParameters` to initialize a new 2D texture with no mipmapping.
    pub fn new_2d(width: u16, height: u16, format: ColorFormat) -> (r: TextureParameters)
        ensures
            r == (TextureParameters { width, height, max_level: 0, format, mode: Mode::Tex2D, on_vram: false }),
    {
        TextureParameters { width, height, max_level: 0, format, mode: Mode::Tex2D, on_vram: false }
    }

    /// `TextureParameters` to initialize a new 2D texture with mipmapping.
    pub fn new_2d_with_mipmap(width: u16, height: u16, format: ColorFormat) -> (r: TextureParameters)
        requires
            width > 0,
            height > 0,
        ensures
            r == (TextureParameters {
                width,
                height,
                max_level: #[verifier::truncate] ((spec_log2(
                    if width < height { width as nat } else { height as nat },
                ) - 3) as u8),
                format,
                mode: Mode::Tex2D,
                on_vram: false,
            }),
    {
        let level = tex_calc_max_level(width as u32, height as u32);
        TextureParameters {
            width,
            height,
            max_level: #[verifier::truncate] (level as u8),
            format,
            mode: Mode::Tex2D,
            on_vram: false,
        }
    }

    /// `TextureParameters` to initialize a new 2D texture with no mipmapping that is stored in VRAM.
    pub fn new_2d_in_vram(width: u16, height: u16, format: ColorFormat) -> (r: TextureParameters)
        ensures
            r == (TextureParameters { width, height, max_level: 0, format, mode: Mode::Tex2D, on_vram: true }),
    {
        TextureParameters { width, height, max_level: 0, format, mode: Mode::Tex2D, on_vram: true }
    }

    /// `TextureParameters` to initialize a new 2D texture for a shadow map.
    pub fn new_shadow(width: u16, height: u16) -> (r: TextureParameters)
        ensures
            r == (TextureParameters {
                width,
                height,
                max_level: 0,
                format: ColorFormat::Rgba8,
                mode: Mode::Shadow2D,
                on_vram: true,
            }),
    {
        TextureParameters {
            width,
            height,
            max_level: 0,
            format: ColorFormat::Rgba8,
            mode: Mode::Shadow2D,
            on_vram: true,
        }
    }

    /// Check that a texture can be allocated with these parameters.
    ///
    /// # Errors
    ///
    /// * [`Error::InvalidSize`] if the width or height is not a power of two from 8 to 1024.
    /// * [`Error::FailedToInitialize`] for cube maps, which are not supported.
    pub fn validate(&self) -> (r: Result<(), Error>)
        ensures
            !(spec_valid_size(self.width) && spec_valid_size(self.height)) ==> r == Err::<
                (),
                Error,
            >(Error::InvalidSize),
            spec_valid_size(self.width) && spec_valid_size(self.height) && (self.mode
                == Mode::CubeMap || self.mode == Mode::ShadowCube) ==> r == Err::<(), Error>(
                Error::FailedToInitialize,
            ),
            r is Ok <==> spec_valid_size(self.width) && spec_valid_size(self.height) && self.mode
                != Mode::CubeMap && self.mode != Mode::ShadowCube,
    {
        if !check_texture_size(self.width) || !check_texture_size(self.height) {
            return Err(Error::InvalidSize);
        }
        // Don't currently support cube maps
        match self.mode {
            Mode::CubeMap | Mode::ShadowCube => Err(Error::FailedToInitialize),
            _ => Ok(()),
        }
    }
}

/// The parameters in the packed form that `C3D_TexInitWithParams` takes
/// (`C3D_TexInitParams`): the width and height, and one 16-bit word holding the
/// highest mipmap level (bits 0 to 3), the pixel format (bits 4 to 7), the kind of
/// texture (bits 8 to 10) and whether it lives in VRAM (bit 11).
#[derive(Clone, Copy, Debug, PartialEq, Eq, Structural)]
pub struct TexInitParams {
    /// Width in pixels.
    pub width: u16,
    /// Height in pixels.
    pub height: u16,
    /// The packed bit fields.
    pub bits: u16,
}

/// The packed bit fields of `C3D_TexInitParams`; each value keeps only the bits
/// that fit its field.
pub open spec fn spec_pack_bits(max_level: u8, format: u8, mode: u8, on_vram: bool) -> u16 {
    ((max_level & 0xF) as u16) | (((format & 0xF) as u16) << 4u16) | (((mode & 0x7) as u16) << 8u16)
        | ((if on_vram { 1u16 } else { 0u16 }) << 11u16)
}

/// The highest mipmap level held in packed bit fields.
pub open spec fn spec_bits_max_level(bits: u16) -> u16 {
    bits & 0xF
}

/// The raw pixel format held in packed bit fields.
pub open spec fn spec_bits_format(bits: u16) -> u16 {
    (bits >> 4u16) & 0xF
}

/// The raw kind of texture held in packed bit fields.
pub open spec fn spec_bits_mode(bits: u16) -> u16 {
    (bits >> 8u16) & 0x7
}

/// Whether packed bit fields say that the texture lives in VRAM.
pub open spec fn spec_bits_on_vram(bits: u16) -> bool {
    (bits >> 11u16) & 1 == 1
}

fn pack_bits(max_level: u8, format: u8, mode: u8, on_vram: bool) -> (r: u16)
    ensures
        r == spec_pack_bits(max_level, format, mode, on_vram),
{
    let vram: u16 = if on_vram { 1 } else { 0 };
    ((max_level & 0xF) as u16) | (((format & 0xF) as u16) << 4u16) | (((mode & 0x7) as u16) << 8u16)
        | (vram << 11u16)
}

impl From<TextureParameters> for TexInitParams {
    fn from(p: TextureParameters) -> (r: TexInitParams)
        ensures
            r == spec_init_params(p),
    {
        TexInitParams {
            width: p.width,
            height: p.height,
            bits: pack_bits(p.max_level, p.format.raw(), p.mode.raw(), p.on_vram),
        }
    }
}

/// The packed form of texture parameters.
pub open spec fn spec_init_params(p: TextureParameters) -> TexInitParams {
    TexInitParams {
        width: p.width,
        height: p.height,
        bits: spec_pack_bits(p.max_level, p.format.spec_raw(), p.mode.spec_raw(), p.on_vram),
    }
}

impl vstd::std_specs::convert::FromSpecImpl<TextureParameters> for TexInitParams {
    open spec fn obeys_from_spec() -> bool {
        true
    }

    open spec fn from_spec(p: TextureParameters) -> TexInitParams {
        spec_init_params(p)
    }
}

/// Packing texture parameters loses nothing that fits the fields: the width and
/// height, the pixel format, the kind of texture and the VRAM flag read back as
/// they were given, and the highest mipmap level reads back as its low four bits.
pub proof fn lemma_init_params_read_back(p: TextureParameters)
    ensures
        spec_init_params(p).width == p.width,
        spec_init_params(p).height == p.height,
        spec_bits_max_level(spec_init_params(p).bits) == p.max_level % 16,
        spec_bits_format(spec_init_params(p).bits) == p.format.spec_raw(),
        spec_bits_mode(spec_init_params(p).bits) == p.mode.spec_raw(),
        spec_bits_on_vram(spec_init_params(p).bits) == p.on_vram,
        spec_init_params(p).bits == p.max_level % 16 + 16 * p.format.spec_raw() + 256
            * p.mode.spec_raw() + (if p.on_vram { 2048int } else { 0int }),
{
    let m = p.max_level;
    let f = p.format.spec_raw();
    let t = p.mode.spec_raw();
    let v: u16 = if p.on_vram { 1 } else { 0 };
    assert(f < 16 && t < 8);
    assert(f < 16 && t < 8 ==> {
        let b: u16 = ((m & 0xF) as u16) | (((f & 0xF) as u16) << 4u16) | (((t & 0x7) as u16) << 8u16)
            | (v << 11u16);
        &&& b & 0xF == m % 16
        &&& (b >> 4u16) & 0xF == f
        &&& (b >> 8u16) & 0x7 == t
        &&& ((b >> 11u16) & 1 == 1) == (v == 1)
        &&& b == (m % 16) as u16 + 16 * f as u16 + 256 * t as u16 + 2048 * v
    }) by (bit_vector)
        requires
            v == 0 || v == 1,
    ;
}

/// For every valid texture size, the mipmap chain of [`TextureParameters::new_2d_with_mipmap`]
/// ends at an 8-pixel level: its highest level is from 0 to 7, and halving the smaller
/// side that many times leaves 8 pixels.
pub proof fn lemma_mipmap_levels_of_valid_size(width: u16, height: u16)
    requires
        spec_valid_size(width),
        spec_valid_size(height),
    ensures
        ({
            let m: nat = if width < height { width as nat } else { height as nat };
            let level = spec_log2(m) - 3;
            &&& 0 <= level <= 7
            &&& spec_pow2((level + 3) as nat) == m
        }),
{
    let m: nat = if width < height { width as nat } else { height as nat };
    reveal_with_fuel(spec_log2, 12);
    reveal_with_fuel(spec_pow2, 12);
    assert(m == 8 || m == 16 || m == 32 || m == 64 || m == 128 || m == 256 || m == 512 || m
        == 1024);
}

/// The number of bytes the image data must at least hold to be loaded into mipmap
/// level `mipmap_level` of a `width` by `height` texture of pixel format `format`
/// whose highest level is `max_level`: the size of that level alone, or of all
/// levels when loading level 0.
pub open spec fn spec_required_image_len(
    format: ColorFormat,
    width: u16,
    height: u16,
    max_level: u8,
    mipmap_level: u8,
) -> int {
    let size = spec_image_size(format, width, height) as u64;
    if mipmap_level > 0 {
        spec_level_size(size, mipmap_level as u64) as int
    } else {
        spec_total_size(size, max_level as u64)
    }
}

/// Loading the single level of a texture of valid size needs exactly the bytes of
/// its full-size image: no fewer, so that the load reads nothing past the data.
pub proof fn lemma_single_level_needs_whole_image(format: ColorFormat, width: u16, height: u16)
    requires
        spec_valid_size(width),
        spec_valid_size(height),
    ensures
        spec_required_image_len(format, width, height, 0, 0) == spec_image_size(
            format,
            width,
            height,
        ),
{
    let w = width as int;
    let h = height as int;
    let b = format.spec_bits_per_pixel() as int;
    assert(w % 8 == 0 && h % 8 == 0 && 8 <= w <= 1024 && 8 <= h <= 1024);
    assert(4 <= b <= 32);
    let k = w / 8;
    let m = h / 8;
    assert(w == 8 * k && h == 8 * m && 1 <= k <= 128 && 1 <= m <= 128);
    let t = k * m * b;
    assert(w * h * b == 64 * t) by (nonlinear_arith)
        requires
            w == 8 * k,
            h == 8 * m,
            t == k * m * b,
    ;
    assert(0 <= t <= 128 * 128 * 32) by (nonlinear_arith)
        requires
            t == k * m * b,
            1 <= k <= 128,
            1 <= m <= 128,
            4 <= b <= 32,
    ;
    let size: int = w * h * b / 8;
    assert(size == 8 * t);
    assert(size % 4 == 0 && 0 <= size <= 1024 * 1024 * 4);
    let s = size as u64;
    assert(s >> 2u64 == s / 4) by (bit_vector);
    assert(spec_level_size(s, 1) == s >> 2u64);
    assert((s - s / 4) * 4 / 3 == s);
}

/// Check that `data_len` bytes of image data are enough to load mipmap level
/// `mipmap_level` of a `width` by `height` texture of pixel format `format` and
/// highest level `max_level`, so that loading it reads no byte past the data.
///
/// # Errors
///
/// [`Error::InvalidSize`] if the data is too short.
pub fn check_image_len(
    format: ColorFormat,
    width: u16,
    height: u16,
    max_level: u8,
    data_len: usize,
    mipmap_level: u8,
) -> (r: Result<(), Error>)
    requires
        mipmap_level < 16,
        max_level < 15,
    ensures
        r is Ok <==> data_len >= spec_required_image_len(
            format,
            width,
            height,
            max_level,
            mipmap_level,
        ),
        r matches Err(e) ==> e == Error::InvalidSize,
{
    let bpp = format.bits_per_pixel() as u64;
    assert(bpp <= 32);
    let w = width as u64;
    let h = height as u64;
    assert(w * h <= 0xFFFF * 0xFFFF) by (nonlinear_arith)
        requires
            w <= 0xFFFF,
            h <= 0xFFFF,
    ;
    let wh = w * h;
    assert(wh * bpp <= 0xFFFF * 0xFFFF * 32) by (nonlinear_arith)
        requires
            wh <= 0xFFFF * 0xFFFF,
            bpp <= 32,
    ;
    let size0: u64 = wh * bpp / 8;
    assert(size0 == spec_image_size(format, width, height));
    let size: u64 = if mipmap_level > 0 {
        size0 >> (2 * mipmap_level as u64)
    } else {
        let rest = size0 >> (2 * (max_level as u64 + 1));
        assert(size0 >> (2 * (max_level as u64 + 1)) <= size0) by (bit_vector);
        (size0 - rest) * 4 / 3
    };
    if (data_len as u64) < size {
        return Err(Error::InvalidSize);
    }
    Ok(())
}

} // verus!
