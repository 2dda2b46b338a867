//! Configure vertex attributes.
//!
//! This module has types and helpers for describing the shape/structure of vertex
//! data to be sent to the GPU.
//!
//! See the [`buffer`](crate::buffer) module to use the vertex data itself.

use vstd::prelude::*;

use crate::error::Error;

verus! {

/// A shader input register, usually corresponding to a single vertex attribute
/// (e.g. position or color). These are called `v0`, `v1`, ... `v15` in the
/// picasso shader language.
#[derive(Clone, Copy, Debug, PartialEq, Eq)]
pub enum Register {
    /// Input register `v0`.
    V0,
    /// Input register `v1`.
    V1,
    /// Input register `v2`.
    V2,
    /// Input register `v3`.
    V3,
    /// Input register `v4`.
    V4,
    /// Input register `v5`.
    V5,
    /// Input register `v6`.
    V6,
    /// Input register `v7`.
    V7,
    /// Input register `v8`.
    V8,
    /// Input register `v9`.
    V9,
    /// Input register `v10`.
    V10,
    /// Input register `v11`.
    V11,
    /// Input register `v12`.
    V12,
    /// Input register `v13`.
    V13,
    /// Input register `v14`.
    V14,
    /// Input register `v15`.
    V15,
}

impl Register {
    /// The raw `register number` value that encodes this variant.
    pub open spec fn spec_raw(self) -> u8 {
        match self {
            Register::V0 => 0,
            Register::V1 => 1,
            Register::V2 => 2,
            Register::V3 => 3,
            Register::V4 => 4,
            Register::V5 => 5,
            Register::V6 => 6,
            Register::V7 => 7,
            Register::V8 => 8,
            Register::V9 => 9,
            Register::V10 => 10,
            Register::V11 => 11,
            Register::V12 => 12,
            Register::V13 => 13,
            Register::V14 => 14,
            Register::V15 => 15,
        }
    }

    /// Each variant encodes to the `register number` value that the hardware defines for it.
    pub proof fn lemma_raw_values()
        ensures
            Register::V0.spec_raw() == 0,
            Register::V1.spec_raw() == 1,
            Register::V2.spec_raw() == 2,
            Register::V3.spec_raw() == 3,
            Register::V4.spec_raw() == 4,
            Register::V5.spec_raw() == 5,
            Register::V6.spec_raw() == 6,
            Register::V7.spec_raw() == 7,
            Register::V8.spec_raw() == 8,
            Register::V9.spec_raw() == 9,
            Register::V10.spec_raw() == 10,
            Register::V11.spec_raw() == 11,
            Register::V12.spec_raw() == 12,
            Register::V13.spec_raw() == 13,
            Register::V14.spec_raw() == 14,
            Register::V15.spec_raw() == 15,
    {
    }

    /// The raw `register number` value of this variant.
    pub fn raw(self) -> (r: u8)
        ensures
            r == self.spec_raw(),
    {
        match self {
            Register::V0 => 0,
            Register::V1 => 1,
            Register::V2 => 2,
            Register::V3 => 3,
            Register::V4 => 4,
            Register::V5 => 5,
            Register::V6 => 6,
            Register::V7 => 7,
            Register::V8 => 8,
            Register::V9 => 9,
            Register::V10 => 10,
            Register::V11 => 11,
            Register::V12 => 12,
            Register::V13 => 13,
            Register::V14 => 14,
            Register::V15 => 15,
        }
    }
}

/// The data format of an attribute.
#[derive(Clone, Copy, Debug, PartialEq, Eq)]
pub enum Format {
    /// A signed byte, i.e. [`i8`].
    Byte,
    /// An unsigned byte, i.e. [`u8`].
    UnsignedByte,
    /// A float, i.e. `f32`.
    Float,
    /// A short integer, i.e. [`i16`].
    Short,
}

impl Format {
    /// The raw `GPU_FORMATS` value that encodes this variant.
    pub open spec fn spec_raw(self) -> u8 {
        match self {
            Format::Byte => 0,
            Format::UnsignedByte => 1,
            Format::Float => 3,
            Format::Short => 2,
        }
    }

    /// Each variant encodes to the `GPU_FORMATS` value that the hardware defines for it.
    pub proof fn lemma_raw_values()
        ensures
            Format::Byte.spec_raw() == 0,
            Format::UnsignedByte.spec_raw() == 1,
            Format::Float.spec_raw() == 3,
            Format::Short.spec_raw() == 2,
    {
    }

    /// The raw `GPU_FORMATS` value of this variant.
    pub fn raw(self) -> (r: u8)
        ensures
            r == self.spec_raw(),
    {
        match self {
            Format::Byte => 0,
            Format::UnsignedByte => 1,
            Format::Float => 3,
            Format::Short => 2,
        }
    }
}

impl From<Format> for u8 {
    fn from(value: Format) -> (r: u8)
        ensures
            r == value.spec_raw(),
    {
        value.raw()
    }
}

impl vstd::std_specs::convert::FromSpecImpl<Format> for u8 {
    open spec fn obeys_from_spec() -> bool {
        true
    }

    open spec fn from_spec(v: Format) -> u8 {
        v.spec_raw()
    }
}

/// The most attribute registers a buffer layout can map.
pub const MAX_LAYOUT_LEN: usize = 16;

/// The 4-bit field of `permutation` that describes buffer field `i`.
pub open spec fn nibble(permutation: u64, i: int) -> u64 {
    (permutation >> ((4 * i) as u64)) & 0xF
}

/// The permutation of a buffer containing vertex attribute data.
/// The Permutation maps the layout of an input buffer's fields to the
/// input registers used in the picasso shader.
#[derive(Debug, Copy, Clone)]
pub struct Permutation {
    pub(crate) permutation: u64,
    pub(crate) attrib_count: u8,
}

/// Field `i` of a permutation word holds the register of buffer field `i`, for
/// the fields of `layout`, and every later field is zero.
pub open spec fn encodes_layout(permutation: u64, layout: Seq<Register>) -> bool {
    forall|i: int|
        0 <= i < 16 ==> #[trigger] nibble(permutation, i) == (if i < layout.len() {
            layout[i].spec_raw() as u64
        } else {
            0u64
        })
}

proof fn lemma_set_nibble(p: u64, r: u64, si: u64, sj: u64)
    requires
        si < 64,
        sj < 64,
        si % 4 == 0,
        sj % 4 == 0,
        r < 16,
        si != sj,
    ensures
        ((p | (r << si)) >> sj) & 0xF == (p >> sj) & 0xF,
{
    assert(((p | (r << si)) >> sj) & 0xF == (p >> sj) & 0xF) by (bit_vector)
        requires
            si < 64,
            sj < 64,
            si % 4 == 0,
            sj % 4 == 0,
            r < 16,
            si != sj,
    ;
}

proof fn lemma_fill_nibble(p: u64, r: u64, si: u64)
    requires
        si < 64,
        si % 4 == 0,
        r < 16,
        (p >> si) & 0xF == 0,
    ensures
        ((p | (r << si)) >> si) & 0xF == r,
{
    assert(((p | (r << si)) >> si) & 0xF == r) by (bit_vector)
        requires
            si < 64,
            si % 4 == 0,
            r < 16,
            (p >> si) & 0xF == 0,
    ;
}

proof fn lemma_zero_nibbles(s: u64)
    ensures
        (0u64 >> s) & 0xF == 0,
{
    assert((0u64 >> s) & 0xF == 0) by (bit_vector);
}

impl Permutation {
    /// The permutation word, one 4-bit register number per buffer field.
    pub closed spec fn spec_permutation(self) -> u64 {
        self.permutation
    }

    /// The number of attributes that the permutation describes.
    pub closed spec fn spec_attrib_count(self) -> u8 {
        self.attrib_count
    }

    /// Construct the permutation for a buffer whos fields (in order) correspond to the
    /// provided list of input registers (as used in the picasso shader).
    ///
    /// # Errors
    ///
    /// * If more than 16 attribute registers are provided (i.e. `layout.len() > 16`)
    pub fn from_layout(layout: &[Register]) -> (r: Result<Self, Error>)
        ensures
            layout@.len() > 16 <==> r is Err,
            r matches Err(e) ==> e == (Error::IndexOutOfBounds {
                idx: #[verifier::truncate] ((layout@.len() - 1) as i32),
                len: 16,
            }),
            r matches Ok(p) ==> encodes_layout(p.spec_permutation(), layout@)
                && p.spec_attrib_count() == layout@.len(),
    {
        if layout.len() > MAX_LAYOUT_LEN {
            return Err(Error::IndexOutOfBounds { idx: #[verifier::truncate] ((layout.len() - 1) as i32), len: 16 });
        }
        let mut perm: u64 = 0;
        let mut i: usize = 0;
        proof {
            assert forall|j: int| 0 <= j < 16 implies #[trigger] nibble(perm, j) == 0u64 by {
                lemma_zero_nibbles((4 * j) as u64);
            }
        }
        while i < layout.len()
            invariant
                i <= layout@.len() <= 16,
                forall|j: int|
                    0 <= j < 16 ==> #[trigger] nibble(perm, j) == (if j < i {
                        layout@[j].spec_raw() as u64
                    } else {
                        0u64
                    }),
            decreases layout@.len() - i,
        {
            let r: u64 = layout[i].raw() as u64;
            let ghost old_perm = perm;
            assert(r == layout@[i as int].spec_raw() as u64);
            perm = perm | (r << (i as u64 * 4));
            assert(i as u64 * 4 == (4 * i) as u64);
            proof {
                assert forall|j: int| 0 <= j < 16 implies #[trigger] nibble(perm, j) == (if j < i
                    + 1 {
                    layout@[j].spec_raw() as u64
                } else {
                    0u64
                }) by {
                    let si = (4 * i) as u64;
                    let sj = (4 * j) as u64;
                    // What the loop invariant says of this nibble before the write.
                    assert(nibble(old_perm, j) == (if j < i {
                        layout@[j].spec_raw() as u64
                    } else {
                        0u64
                    }));
                    assert(r < 16);
                    assert(si < 64 && si % 4 == 0);
                    assert(sj < 64 && sj % 4 == 0);
                    assert(nibble(perm, j) == ((old_perm | (r << si)) >> sj) & 0xF);
                    if j == i as int {
                        assert(nibble(old_perm, i as int) == 0u64);
                        lemma_fill_nibble(old_perm, r, si);
                    } else {
                        lemma_set_nibble(old_perm, r, si, sj);
                    }
                }
            }
            i = i + 1;
        }
        Ok(Permutation { permutation: perm, attrib_count: layout.len() as u8 })
    }
}

/// An attribute index. This is the attribute's actual index in the input buffer,
/// and may correspond to any [`Register`] (or multiple) as input in the shader
/// program.
#[derive(Debug, Clone, Copy, PartialEq, Eq, Structural)]
pub struct Index(u8);

impl Index {
    /// The index.
    pub closed spec fn spec_value(self) -> u8 {
        self.0
    }

    /// The index.
    pub fn value(self) -> (r: u8)
        ensures
            r == self.spec_value(),
    {
        self.0
    }
}

/// The most elements an attribute loader can load per vertex.
pub const MAX_LOADER_COUNT: u8 = 4;

/// Vertex attribute info: the permutation and number of the attributes registered
/// with `citro3d`'s attribute info structure.
#[derive(Debug, Clone, Copy)]
pub struct Info {
    permutation: u64,
    attr_count: libc::c_int,
}

impl Info {
    /// The permutation word registered so far.
    pub closed spec fn spec_permutation(self) -> u64 {
        self.permutation
    }

    /// The number of attributes registered so far.
    pub closed spec fn spec_attr_count(self) -> libc::c_int {
        self.attr_count
    }

    /// Construct a new attribute info structure with no attributes (`AttrInfo_Init`).
    pub fn new() -> (r: Self)
        ensures
            r.spec_permutation() == 0,
            r.spec_attr_count() == 0,
    {
        Info { permutation: 0, attr_count: 0 }
    }

    /// The info of an attribute structure holding `permutation` and `attr_count`.
    pub fn from_raw(permutation: u64, attr_count: libc::c_int) -> (r: Self)
        ensures
            r.spec_permutation() == permutation,
            r.spec_attr_count() == attr_count,
    {
        Info { permutation, attr_count }
    }

    /// Check the element count of a new attribute loader, before it is added.
    ///
    /// # Errors
    ///
    /// * [`Error::InvalidSize`] if `count > 4`
    pub fn check_loader_count(count: u8) -> (r: Result<(), Error>)
        ensures
            r is Ok <==> count <= MAX_LOADER_COUNT,
            r matches Err(e) ==> e == Error::InvalidSize,
    {
        if count > MAX_LOADER_COUNT {
            return Err(Error::InvalidSize);
        }
        Ok(())
    }

    /// The index of an added attribute loader, from what `AttrInfo_AddLoader` returned.
    ///
    /// # Errors
    ///
    /// * [`Error::TooManyAttributes`] if the result is no index (the info already
    ///   had the maximum number of attributes).
    pub fn loader_index(ret: libc::c_int) -> (r: Result<Index, Error>)
        ensures
            r is Ok <==> 0 <= ret <= 255,
            r matches Ok(i) ==> i.spec_value() == ret,
            r matches Err(e) ==> e == Error::TooManyAttributes,
    {
        if ret < 0 || ret > 255 {
            return Err(Error::TooManyAttributes);
        }
        Ok(Index(ret as u8))
    }

    /// Get the [`Permutation`] for a buffer with elements containing all the fields
    /// added to this `Info`. If the buffer elements do not contain all the fields
    /// or contain them in a different order than they were added to this `Info`,
    /// construct the [`Permutation`] yourself using [`Permutation::from_layout`].
    pub fn permutation(&self) -> (r: Permutation)
        ensures
            r.spec_permutation() == self.spec_permutation(),
            r.spec_attrib_count() == #[verifier::truncate] (self.spec_attr_count() as u8),
    {
        Permutation {
            permutation: self.permutation,
            attrib_count: #[verifier::truncate] (self.attr_count as u8),
        }
    }

    /// Get the number of registered attributes.
    pub fn attr_count(&self) -> (r: libc::c_int)
        ensures
            r == self.spec_attr_count(),
    {
        self.attr_count
    }
}

impl Default for Info {
    fn default() -> (r: Self)
        ensures
            r.spec_permutation() == 0,
            r.spec_attr_count() == 0,
    {
        Info::new()
    }
}

impl Permutation {
    /// The permutation word.
    pub fn bits(&self) -> (r: u64)
        ensures
            r == self.spec_permutation(),
    {
        self.permutation
    }

    /// The number of attributes.
    pub fn attrib_count(&self) -> (r: u8)
        ensures
            r == self.spec_attrib_count(),
    {
        self.attrib_count
    }
}

} // verus!
