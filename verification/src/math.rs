//! Matrix and vector types shared with `citro3d`, and the configuration of 3D
//! projections.
//!
//! Vector components are kept in the PICA layout: a vector holds four 32-bit
//! words in WZYX order, each the IEEE-754 encoding of one `f32` component, and a
//! matrix holds four such rows. Arithmetic on the components is done by
//! `citro3d` itself; this module moves and rearranges the encoded components.

use vstd::prelude::*;

verus! {

/// The four component words of a vector, in memory (WZYX) order.
pub type RawFVec = [u32; 4];

/// The four rows of a 4x4 row-major matrix.
pub type RawMtx = [RawFVec; 4];

/// The encoding of the `f32` value `0.0`.
pub const F32_ZERO_BITS: u32 = 0;

/// The encoding of the `f32` value `1.0`.
pub const F32_ONE_BITS: u32 = 0x3F80_0000;

/// A 4-vector of `u8`s, packed as `x | y << 8 | z << 16 | w << 24`.
#[derive(Clone, Copy, Debug, PartialEq, Eq)]
pub struct IVec(u32);

impl IVec {
    /// The packed vector.
    pub closed spec fn spec_raw(self) -> u32 {
        self.0
    }

    /// Wrap a packed vector.
    pub fn from_raw(raw: u32) -> (r: Self)
        ensures
            r.spec_raw() == raw,
    {
        IVec(raw)
    }

    /// The packed vector.
    pub fn as_raw(&self) -> (r: u32)
        ensures
            r == self.spec_raw(),
    {
        self.0
    }

    /// Pack four components.
    pub fn new(x: u8, y: u8, z: u8, w: u8) -> (r: Self)
        ensures
            r.spec_raw() == x as u32 | (y as u32) << 8u32 | (z as u32) << 16u32 | (w as u32) << 24u32,
    {
        IVec(x as u32 | (y as u32) << 8 | (z as u32) << 16 | (w as u32) << 24)
    }

    /// The `x` component.
    pub fn x(self) -> (r: u8)
        ensures
            r == self.spec_raw() & 0xFF,
    {
        let v = self.0;
        assert(v & 0xFF <= 0xFF) by (bit_vector);
        (v & 0xFF) as u8
    }

    /// The `y` component.
    pub fn y(self) -> (r: u8)
        ensures
            r == (self.spec_raw() >> 8u32) & 0xFF,
    {
        let v = self.0;
        assert((v >> 8u32) & 0xFF <= 0xFF) by (bit_vector);
        ((v >> 8) & 0xFF) as u8
    }

    /// The `z` component.
    pub fn z(self) -> (r: u8)
        ensures
            r == (self.spec_raw() >> 16u32) & 0xFF,
    {
        let v = self.0;
        assert((v >> 16u32) & 0xFF <= 0xFF) by (bit_vector);
        ((v >> 16) & 0xFF) as u8
    }

    /// The `w` component.
    pub fn w(self) -> (r: u8)
        ensures
            r == (self.spec_raw() >> 24u32) & 0xFF,
    {
        let v = self.0;
        assert((v >> 24u32) & 0xFF <= 0xFF) by (bit_vector);
        ((v >> 24) & 0xFF) as u8
    }
}

/// Packing four components and reading them back gives the components.
pub proof fn lemma_ivec_components(x: u8, y: u8, z: u8, w: u8)
    ensures
        ({
            let p = x as u32 | (y as u32) << 8u32 | (z as u32) << 16u32 | (w as u32) << 24u32;
            &&& p & 0xFF == x
            &&& (p >> 8u32) & 0xFF == y
            &&& (p >> 16u32) & 0xFF == z
            &&& (p >> 24u32) & 0xFF == w
        }),
{
    let (a, b, c, d) = (x as u32, y as u32, z as u32, w as u32);
    assert({
        let p = a | b << 8u32 | c << 16u32 | d << 24u32;
        &&& p & 0xFF == a
        &&& (p >> 8u32) & 0xFF == b
        &&& (p >> 16u32) & 0xFF == c
        &&& (p >> 24u32) & 0xFF == d
    }) by (bit_vector)
        requires
            a < 256,
            b < 256,
            c < 256,
            d < 256,
    ;
}

/// A vector of `f32`s.
///
/// # Layout
/// Note that this matches the PICA layout so is actually WZYX.
#[derive(Clone, Copy, Debug)]
pub struct FVec<const N: usize>(pub(crate) RawFVec);

/// A 3-vector of `f32`s.
pub type FVec3 = FVec<3>;

/// A 4-vector of `f32`s.
pub type FVec4 = FVec<4>;

impl<const N: usize> FVec<N> {
    /// The component words in WZYX order.
    pub closed spec fn spec_raw(self) -> Seq<u32> {
        self.0@
    }

    /// The component words in WZYX order.
    pub fn as_raw(&self) -> (r: &RawFVec)
        ensures
            r@ == self.spec_raw(),
    {
        &self.0
    }
}

impl FVec<4> {
    /// The vector holding the component words `raw`, in WZYX order.
    pub closed spec fn spec_from_raw(raw: RawFVec) -> Self {
        FVec(raw)
    }

    /// The vector built from some component words holds those words.
    pub proof fn lemma_from_raw(raw: RawFVec)
        ensures
            Self::spec_from_raw(raw).spec_raw() == raw@,
    {
    }

    /// Wrap raw component words, in WZYX order.
    pub fn from_raw(raw: RawFVec) -> (r: Self)
        ensures
            r == Self::spec_from_raw(raw),
            r.spec_raw() == raw@,
    {
        FVec(raw)
    }
}

impl FVec<3> {
    /// Wrap raw component words, in WZYX order.
    pub fn from_raw(raw: RawFVec) -> (r: Self)
        ensures
            r.spec_raw() == raw@,
    {
        FVec(raw)
    }
}

/// A quaternion, internally represented the same way as [`FVec`].
#[derive(Clone, Copy, Debug)]
pub struct FQuat(RawFVec);

impl FQuat {
    /// The component words in KJI-R order.
    pub closed spec fn spec_raw(self) -> Seq<u32> {
        self.0@
    }

    /// Wrap raw component words.
    pub fn from_raw(raw: RawFVec) -> (r: Self)
        ensures
            r.spec_raw() == raw@,
    {
        FQuat(raw)
    }

    /// The component words.
    pub fn as_raw(&self) -> (r: &RawFVec)
        ensures
            r@ == self.spec_raw(),
    {
        &self.0
    }
}

/// A 4x4 row-major matrix of `f32`s.
///
/// # Layout details
/// Rows are actually stored as WZYX in memory, like [`FVec`]s.
#[derive(Clone, Copy, Debug)]
pub struct Matrix4(RawMtx);

/// Whether `m` is the matrix whose rows, in WZYX order, hold `diag` on the diagonal
/// and zero elsewhere.
pub open spec fn is_diagonal_raw(m: RawMtx, diag: u32) -> bool {
    forall|i: int, j: int|
        0 <= i < 4 && 0 <= j < 4 ==> #[trigger] m@[i]@[j] == (if j == 3 - i {
            diag
        } else {
            F32_ZERO_BITS
        })
}

fn diagonal_raw(diag: u32) -> (r: RawMtx)
    ensures
        is_diagonal_raw(r, diag),
{
    let z = F32_ZERO_BITS;
    let r: RawMtx = [[z, z, z, diag], [z, z, diag, z], [z, diag, z, z], [diag, z, z, z]];
    proof {
        assert forall|i: int, j: int| 0 <= i < 4 && 0 <= j < 4 implies #[trigger] r@[i]@[j] == (
        if j == 3 - i {
            diag
        } else {
            F32_ZERO_BITS
        }) by {
            assert(r@[0]@ == seq![z, z, z, diag]);
            assert(r@[1]@ == seq![z, z, diag, z]);
            assert(r@[2]@ == seq![z, diag, z, z]);
            assert(r@[3]@ == seq![diag, z, z, z]);
        }
    }
    r
}

impl Matrix4 {
    /// The rows, each in WZYX order.
    pub closed spec fn spec_raw(self) -> RawMtx {
        self.0
    }

    /// Create a new matrix from raw rows.
    pub fn from_raw(value: RawMtx) -> (r: Self)
        ensures
            r.spec_raw() == value,
    {
        Matrix4(value)
    }

    /// The raw rows.
    pub fn as_raw(&self) -> (r: &RawMtx)
        ensures
            *r == self.spec_raw(),
    {
        &self.0
    }

    /// The raw rows, for modification in place.
    pub fn as_raw_mut(&mut self) -> (r: &mut RawMtx)
        ensures
            *r == old(self).spec_raw(),
            final(self).spec_raw() == *final(r),
    {
        &mut self.0
    }

    /// The raw rows.
    pub fn into_raw(self) -> (r: RawMtx)
        ensures
            r == self.spec_raw(),
    {
        self.0
    }

    /// Get the rows in raw (WZYX) form.
    pub fn rows_wzyx(self) -> (r: [FVec4; 4])
        ensures
            forall|i: int| 0 <= i < 4 ==> #[trigger] r@[i] == FVec4::spec_from_raw(self.spec_raw()@[i]),
            forall|i: int| 0 <= i < 4 ==> #[trigger] r@[i].spec_raw() == self.spec_raw()@[i]@,
    {
        [FVec(self.0[0]), FVec(self.0[1]), FVec(self.0[2]), FVec(self.0[3])]
    }

    /// Get the rows in normal XYZW form (the words of each row reversed).
    pub fn rows_xyzw(self) -> (r: [RawFVec; 4])
        ensures
            forall|i: int, j: int|
                0 <= i < 4 && 0 <= j < 4 ==> #[trigger] r@[i]@[j] == self.spec_raw()@[i]@[3 - j],
    {
        let mut rows = self.0;
        let mut i: usize = 0;
        while i < 4
            invariant
                i <= 4,
                forall|k: int, j: int|
                    0 <= k < i && 0 <= j < 4 ==> #[trigger] rows@[k]@[j] == self.0@[k]@[3 - j],
                forall|k: int| i <= k < 4 ==> #[trigger] rows@[k] == self.0@[k],
            decreases 4 - i,
        {
            let row = rows[i];
            rows[i] = [row[3], row[2], row[1], row[0]];
            i = i + 1;
        }
        rows
    }

    /// Construct the zero matrix.
    pub fn zero() -> (r: Self)
        ensures
            forall|i: int, j: int|
                0 <= i < 4 && 0 <= j < 4 ==> #[trigger] r.spec_raw()@[i]@[j] == F32_ZERO_BITS,
    {
        let z = F32_ZERO_BITS;
        Matrix4([[z, z, z, z], [z, z, z, z], [z, z, z, z], [z, z, z, z]])
    }

    /// Construct the identity matrix.
    pub fn identity() -> (r: Self)
        ensures
            is_diagonal_raw(r.spec_raw(), F32_ONE_BITS),
    {
        Matrix4(diagonal_raw(F32_ONE_BITS))
    }
}

/// In XYZW form the identity matrix has `1.0` exactly where the row and column agree.
pub proof fn lemma_identity_rows_xyzw(m: RawMtx, rows: [RawFVec; 4])
    requires
        is_diagonal_raw(m, F32_ONE_BITS),
        forall|i: int, j: int| 0 <= i < 4 && 0 <= j < 4 ==> #[trigger] rows@[i]@[j] == m@[i]@[3 - j],
    ensures
        forall|i: int, j: int|
            0 <= i < 4 && 0 <= j < 4 ==> #[trigger] rows@[i]@[j] == (if i == j {
                F32_ONE_BITS
            } else {
                F32_ZERO_BITS
            }),
{
    assert forall|i: int, j: int| 0 <= i < 4 && 0 <= j < 4 implies #[trigger] rows@[i]@[j] == (
    if i == j {
        F32_ONE_BITS
    } else {
        F32_ZERO_BITS
    }) by {
        assert(rows@[i]@[j] == m@[i]@[3 - j]);
    }
}

/// A 4x4 row-major matrix of `f32`s.
#[derive(Clone, Copy, Debug)]
pub struct Matrix(RawMtx);

impl Matrix {
    /// The rows, each in WZYX order.
    pub closed spec fn spec_raw(self) -> RawMtx {
        self.0
    }

    /// Construct the zero matrix.
    pub fn zero() -> (r: Self)
        ensures
            is_diagonal_raw(r.spec_raw(), F32_ZERO_BITS),
    {
        Matrix(diagonal_raw(F32_ZERO_BITS))
    }

    /// Construct the identity matrix.
    pub fn identity() -> (r: Self)
        ensures
            is_diagonal_raw(r.spec_raw(), F32_ONE_BITS),
    {
        Matrix(diagonal_raw(F32_ONE_BITS))
    }

    /// The raw rows.
    pub fn as_raw(&self) -> (r: &RawMtx)
        ensures
            *r == self.spec_raw(),
    {
        &self.0
    }
}

/// The [orientation](https://en.wikipedia.org/wiki/Orientation_(geometry))
/// (or "handedness") of the coordinate system. Coordinates are always +Y-up,
/// +X-right.
#[derive(Clone, Copy, Debug, PartialEq, Eq)]
pub enum CoordinateOrientation {
    /// A left-handed coordinate system. +Z points into the screen.
    LeftHanded,
    /// A right-handed coordinate system. +Z points out of the screen.
    RightHanded,
}

impl CoordinateOrientation {
    /// Whether this is the left-handed orientation.
    pub fn is_left_handed(self) -> (r: bool)
        ensures
            r <==> self == CoordinateOrientation::LeftHanded,
    {
        match self {
            CoordinateOrientation::LeftHanded => true,
            CoordinateOrientation::RightHanded => false,
        }
    }
}

impl Default for CoordinateOrientation {
    /// This is an opinionated default, but [`RightHanded`](Self::RightHanded)
    /// seems to be the preferred coordinate system for most examples from
    /// upstream, and is also fairly common in other applications.
    fn default() -> (r: Self)
        ensures
            r == CoordinateOrientation::RightHanded,
    {
        CoordinateOrientation::RightHanded
    }
}

/// Whether to rotate a projection to account for the 3DS screen orientation.
/// Both screens on the 3DS are oriented such that the "top-left" of the screen
/// in framebuffer coordinates is the physical bottom-left of the screen
/// (i.e. the "width" is smaller than the "height").
#[derive(Clone, Copy, Debug, PartialEq, Eq)]
pub enum ScreenOrientation {
    /// Rotate 90° clockwise to account for the 3DS screen rotation. Most
    /// applications will use this variant.
    Rotated,
    /// Do not apply any extra rotation to the projection.
    NoRotation,
}

impl Default for ScreenOrientation {
    fn default() -> (r: Self)
        ensures
            r == ScreenOrientation::Rotated,
    {
        ScreenOrientation::Rotated
    }
}

/// The `citro3d` routine that builds the matrix of a projection.
#[derive(Clone, Copy, Debug, PartialEq, Eq)]
pub enum MatrixBuilder {
    /// `Mtx_Persp`: perspective, unrotated.
    Persp,
    /// `Mtx_PerspTilt`: perspective, rotated for the screen.
    PerspTilt,
    /// `Mtx_PerspStereo`: perspective for one eye, unrotated.
    PerspStereo,
    /// `Mtx_PerspStereoTilt`: perspective for one eye, rotated for the screen.
    PerspStereoTilt,
    /// `Mtx_Ortho`: orthographic, unrotated.
    Ortho,
    /// `Mtx_OrthoTilt`: orthographic, rotated for the screen.
    OrthoTilt,
}

/// Configuration for a 3D [projection](https://en.wikipedia.org/wiki/3D_projection),
/// parameterized by the kind of projection.
#[derive(Clone, Debug)]
pub struct Projection<Kind> {
    coordinates: CoordinateOrientation,
    rotation: ScreenOrientation,
    inner: Kind,
}

impl<Kind> Projection<Kind> {
    /// The coordinate system's orientation.
    pub closed spec fn spec_coordinates(self) -> CoordinateOrientation {
        self.coordinates
    }

    /// The screen rotation.
    pub closed spec fn spec_rotation(self) -> ScreenOrientation {
        self.rotation
    }

    /// The kind-specific parameters.
    pub closed spec fn spec_inner(self) -> Kind {
        self.inner
    }

    /// A projection with the default orientation and rotation.
    pub fn new(inner: Kind) -> (r: Self)
        ensures
            r.spec_coordinates() == CoordinateOrientation::RightHanded,
            r.spec_rotation() == ScreenOrientation::Rotated,
            r.spec_inner() == inner,
    {
        Projection {
            coordinates: CoordinateOrientation::default(),
            rotation: ScreenOrientation::default(),
            inner,
        }
    }

    /// Set the coordinate system's orientation for the projection.
    pub fn coordinates(&mut self, orientation: CoordinateOrientation) -> (r: &mut Self)
        ensures
            r.spec_coordinates() == orientation,
            r.spec_rotation() == old(self).spec_rotation(),
            r.spec_inner() == old(self).spec_inner(),
            *final(self) == *final(r),
    {
        self.coordinates = orientation;
        self
    }

    /// Set the screen rotation for the projection.
    pub fn screen(&mut self, orientation: ScreenOrientation) -> (r: &mut Self)
        ensures
            r.spec_rotation() == orientation,
            r.spec_coordinates() == old(self).spec_coordinates(),
            r.spec_inner() == old(self).spec_inner(),
            *final(self) == *final(r),
    {
        self.rotation = orientation;
        self
    }

    /// The coordinate system's orientation.
    pub fn orientation(&self) -> (r: CoordinateOrientation)
        ensures
            r == self.spec_coordinates(),
    {
        self.coordinates
    }

    /// The screen rotation.
    pub fn rotation(&self) -> (r: ScreenOrientation)
        ensures
            r == self.spec_rotation(),
    {
        self.rotation
    }

    /// The routine that builds this projection's matrix when it is a perspective
    /// projection, with stereo displacement for one eye or without.
    pub fn perspective_builder(&self, stereo: bool) -> (r: MatrixBuilder)
        ensures
            r == (match (self.spec_rotation(), stereo) {
                (ScreenOrientation::Rotated, true) => MatrixBuilder::PerspStereoTilt,
                (ScreenOrientation::NoRotation, true) => MatrixBuilder::PerspStereo,
                (ScreenOrientation::Rotated, false) => MatrixBuilder::PerspTilt,
                (ScreenOrientation::NoRotation, false) => MatrixBuilder::Persp,
            }),
    {
        match (self.rotation, stereo) {
            (ScreenOrientation::Rotated, true) => MatrixBuilder::PerspStereoTilt,
            (ScreenOrientation::NoRotation, true) => MatrixBuilder::PerspStereo,
            (ScreenOrientation::Rotated, false) => MatrixBuilder::PerspTilt,
            (ScreenOrientation::NoRotation, false) => MatrixBuilder::Persp,
        }
    }

    /// The routine that builds this projection's matrix when it is an orthographic
    /// projection.
    pub fn orthographic_builder(&self) -> (r: MatrixBuilder)
        ensures
            r == (match self.spec_rotation() {
                ScreenOrientation::Rotated => MatrixBuilder::OrthoTilt,
                ScreenOrientation::NoRotation => MatrixBuilder::Ortho,
            }),
    {
        match self.rotation {
            ScreenOrientation::Rotated => MatrixBuilder::OrthoTilt,
            ScreenOrientation::NoRotation => MatrixBuilder::Ortho,
        }
    }

    /// The kind-specific parameters.
    pub fn inner(&self) -> (r: &Kind)
        ensures
            *r == self.spec_inner(),
    {
        &self.inner
    }
}

} // verus!
