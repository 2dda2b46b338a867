//! Control flags for GX data transfers from a render target to a screen.

use vstd::prelude::*;

use crate::gx::{GX_TRANSFER_IN_FORMAT, GX_TRANSFER_OUT_FORMAT};
use crate::render::ColorFormat;

verus! {

/// Control flags for a GX data transfer.
#[derive(Clone, Copy, Debug)]
pub struct Flags(u32);

impl Flags {
    /// The raw flag word.
    pub closed spec fn spec_bits(self) -> u32 {
        self.0
    }

    /// No flags set.
    pub fn default() -> (r: Self)
        ensures
            r.spec_bits() == 0,
    {
        Flags(0)
    }

    /// Set the input format of the data transfer.
    pub fn in_format(self, fmt: Format) -> (r: Self)
        ensures
            r.spec_bits() == self.spec_bits() | (fmt.spec_raw() << 8u32),
    {
        Flags(self.0 | GX_TRANSFER_IN_FORMAT(fmt.raw()))
    }

    /// Set the output format of the data transfer.
    pub fn out_format(self, fmt: Format) -> (r: Self)
        ensures
            r.spec_bits() == self.spec_bits() | (fmt.spec_raw() << 12u32),
    {
        Flags(self.0 | GX_TRANSFER_OUT_FORMAT(fmt.raw()))
    }

    /// The raw flag word.
    pub fn bits(self) -> (r: u32)
        ensures
            r == self.spec_bits(),
    {
        self.0
    }
}

/// Setting both formats on empty flags puts the input format in bits 8..12 and the
/// output format in bits 12..16, where each can be read back, and sets nothing else.
pub proof fn lemma_formats_read_back(input: Format, output: Format)
    ensures
        ({
            let bits = (0u32 | (input.spec_raw() << 8u32)) | (output.spec_raw() << 12u32);
            &&& (bits >> 8u32) & 0xF == input.spec_raw()
            &&& (bits >> 12u32) & 0xF == output.spec_raw()
            &&& bits & 0xFFFF_00FF == 0
        }),
{
    let a = input.spec_raw();
    let b = output.spec_raw();
    assert({
        let bits = (0u32 | (a << 8u32)) | (b << 12u32);
        &&& (bits >> 8u32) & 0xF == a
        &&& (bits >> 12u32) & 0xF == b
        &&& bits & 0xFFFF_00FF == 0
    }) by (bit_vector)
        requires
            a < 16,
            b < 16,
    ;
}

/// The color format to use when transferring data to/from the GPU.
///
/// NOTE: this a distinct type from [`ColorFormat`] because they are not implicitly
/// convertible to one another. Use [`From::from`] to get the [`Format`] corresponding
/// to a given [`ColorFormat`].
#[derive(Clone, Copy, Debug, PartialEq, Eq)]
pub enum Format {
    /// 8-bit Red + 8-bit Green + 8-bit Blue + 8-bit Alpha.
    RGBA8,
    /// 8-bit Red + 8-bit Green + 8-bit Blue.
    RGB8,
    /// 5-bit Red + 6-bit Green + 5-bit Blue.
    RGB565,
    /// 5-bit Red + 5-bit Green + 5-bit Blue + 1-bit Alpha.
    RGB5A1,
    /// 4-bit Red + 4-bit Green + 4-bit Blue + 4-bit Alpha.
    RGBA4,
}

impl Format {
    /// The widths in bits of the red, green, blue and alpha channels of a pixel, as
    /// the format's name gives them.
    pub open spec fn spec_channels(self) -> (u8, u8, u8, u8) {
        match self {
            Format::RGBA8 => (8, 8, 8, 8),
            Format::RGB8 => (8, 8, 8, 0),
            Format::RGB565 => (5, 6, 5, 0),
            Format::RGB5A1 => (5, 5, 5, 1),
            Format::RGBA4 => (4, 4, 4, 4),
        }
    }

    /// The raw `GX_TRANSFER_FORMAT` value that encodes this variant.
    pub open spec fn spec_raw(self) -> u32 {
        match self {
            Format::RGBA8 => 0,
            Format::RGB8 => 1,
            Format::RGB565 => 2,
            Format::RGB5A1 => 3,
            Format::RGBA4 => 4,
        }
    }

    /// Each variant encodes to the `GX_TRANSFER_FORMAT` value that the hardware defines for it.
    pub proof fn lemma_raw_values()
        ensures
            Format::RGBA8.spec_raw() == 0,
            Format::RGB8.spec_raw() == 1,
            Format::RGB565.spec_raw() == 2,
            Format::RGB5A1.spec_raw() == 3,
            Format::RGBA4.spec_raw() == 4,
    {
    }

    /// The raw `GX_TRANSFER_FORMAT` value of this variant.
    pub fn raw(self) -> (r: u32)
        ensures
            r == self.spec_raw(),
    {
        match self {
            Format::RGBA8 => 0,
            Format::RGB8 => 1,
            Format::RGB565 => 2,
            Format::RGB5A1 => 3,
            Format::RGBA4 => 4,
        }
    }
}

impl From<ColorFormat> for Format {
    fn from(color_fmt: ColorFormat) -> (r: Self)
        ensures
            r == spec_format_of(color_fmt),
    {
        match color_fmt {
            ColorFormat::RGBA8 => Format::RGBA8,
            ColorFormat::RGB8 => Format::RGB8,
            ColorFormat::RGBA5551 => Format::RGB5A1,
            ColorFormat::RGB565 => Format::RGB565,
            ColorFormat::RGBA4 => Format::RGBA4,
        }
    }
}

impl vstd::std_specs::convert::FromSpecImpl<ColorFormat> for Format {
    open spec fn obeys_from_spec() -> bool {
        true
    }

    open spec fn from_spec(v: ColorFormat) -> Format {
        spec_format_of(v)
    }
}

/// The transfer format that carries pixels of the render color format `color_fmt`.
pub open spec fn spec_format_of(color_fmt: ColorFormat) -> Format {
    match color_fmt {
        ColorFormat::RGBA8 => Format::RGBA8,
        ColorFormat::RGB8 => Format::RGB8,
        ColorFormat::RGBA5551 => Format::RGB5A1,
        ColorFormat::RGB565 => Format::RGB565,
        ColorFormat::RGBA4 => Format::RGBA4,
    }
}

/// Each render color format is carried by the transfer format of the same pixel
/// layout: every channel keeps its width.
pub proof fn lemma_format_of_keeps_layout(c: ColorFormat)
    ensures
        spec_format_of(c).spec_channels() == c.spec_channels(),
{
}

/// Each render color format is carried by the transfer format of the same pixel
/// layout, and distinct color formats by distinct transfer formats.
pub proof fn lemma_format_of_injective(a: ColorFormat, b: ColorFormat)
    ensures
        spec_format_of(a) == spec_format_of(b) ==> a == b,
        spec_format_of(a).spec_raw() < 5,
{
}

} // verus!
