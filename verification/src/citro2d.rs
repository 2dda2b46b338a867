//! The 2D layer on top of `citro3d`: its instance, colors packed for 2D drawing and
//! its error type.

use vstd::prelude::*;

verus! {

/// The common result type returned by the 2D functions.
pub type Result<T> = core::result::Result<T, Error>;

/// The error type that may be returned by the 2D functions.
#[derive(Debug, Clone, Copy, PartialEq, Eq)]
pub enum Error {
    /// A C2D object or context could not be initialized.
    FailedToInitialize,
}

/// The single instance for using `citro2d`, on top of the `citro3d` instance it
/// needs.
#[derive(Debug)]
pub struct Instance {
    /// The `citro3d` instance, which lives as long as this one.
    pub citro3d_instance: crate::Instance,
}

impl Instance {
    /// The instance, once `C2D_Init` reported whether `citro2d` could be initialized.
    ///
    /// # Errors
    ///
    /// [`Error::FailedToInitialize`] if `citro2d` could not be initialized.
    pub fn with_init_result(initialized: bool, citro3d_instance: crate::Instance) -> (r: Result<
        Self,
    >)
        ensures
            r is Ok <==> initialized,
            r matches Err(e) ==> e == Error::FailedToInitialize,
            r matches Ok(i) ==> i.citro3d_instance == citro3d_instance,
    {
        if initialized {
            Ok(Instance { citro3d_instance })
        } else {
            Err(Error::FailedToInitialize)
        }
    }
}

/// The packed word `r | g << 8 | b << 16 | a << 24`.
pub open spec fn spec_pack(r: u8, g: u8, b: u8, a: u8) -> u32 {
    r as u32 | (g as u32) << 8u32 | (b as u32) << 16u32 | (a as u32) << 24u32
}

/// A color in RGBA format. The color is stored as a 32-bit integer
#[derive(Debug, Clone, Copy)]
pub struct Color {
    /// The packed color, red in the lowest byte and alpha in the highest.
    pub inner: u32,
}

impl Color {
    /// Create a new color with the given RGB values. Alpha is set to 255 (fully opaque).
    pub fn new(r: u8, g: u8, b: u8) -> (c: Self)
        ensures
            c.inner == spec_pack(r, g, b, 255),
    {
        Self::new_with_alpha(r, g, b, 255)
    }

    /// Create a new color with the given RGBA values.
    pub fn new_with_alpha(r: u8, g: u8, b: u8, a: u8) -> (c: Self)
        ensures
            c.inner == spec_pack(r, g, b, a),
    {
        let inner = r as u32 | (g as u32) << 8 | (b as u32) << 16 | (a as u32) << 24;
        Self { inner }
    }
}

/// The four channels of a packed color can be read back from it.
pub proof fn lemma_pack_channels(r: u8, g: u8, b: u8, a: u8)
    ensures
        spec_pack(r, g, b, a) & 0xFF == r,
        (spec_pack(r, g, b, a) >> 8u32) & 0xFF == g,
        (spec_pack(r, g, b, a) >> 16u32) & 0xFF == b,
        (spec_pack(r, g, b, a) >> 24u32) & 0xFF == a,
{
    let (x, y, z, w) = (r as u32, g as u32, b as u32, a as u32);
    assert({
        let p = x | y << 8u32 | z << 16u32 | w << 24u32;
        &&& p & 0xFF == x
        &&& (p >> 8u32) & 0xFF == y
        &&& (p >> 16u32) & 0xFF == z
        &&& (p >> 24u32) & 0xFF == w
    }) by (bit_vector)
        requires
            x < 256,
            y < 256,
            z < 256,
            w < 256,
    ;
}

impl From<u32> for Color {
    fn from(inner: u32) -> (c: Color)
        ensures
            c.inner == inner,
    {
        Color { inner }
    }
}

impl vstd::std_specs::convert::FromSpecImpl<u32> for Color {
    open spec fn obeys_from_spec() -> bool {
        true
    }

    open spec fn from_spec(v: u32) -> Color {
        Color { inner: v }
    }
}

impl From<Color> for u32 {
    fn from(color: Color) -> (r: u32)
        ensures
            r == color.inner,
    {
        color.inner
    }
}

impl vstd::std_specs::convert::FromSpecImpl<Color> for u32 {
    open spec fn obeys_from_spec() -> bool {
        true
    }

    open spec fn from_spec(v: Color) -> u32 {
        v.inner
    }
}

} // verus!
