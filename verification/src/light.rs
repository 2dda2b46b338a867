//! The lighting part of the GPU pipeline: the lighting environment, its eight
//! hardware lights and the lookup tables (LUTs) bound to them.
//!
//! # Hardware lights
//! There are 8 lights in the GPU's pipeline. A [`LightEnv`] tracks which of them
//! are in use, together with the lookup tables connected to the environment and
//! the spotlight and distance-attenuation tables held by each light.

use vstd::pervasive::arbitrary;
use vstd::prelude::*;

use crate::math::{FVec3, FVec4, F32_ONE_BITS};

verus! {

/// The number of hardware lights in a lighting environment.
pub const NB_LIGHTS: usize = 8;

/// The number of lookup tables that a lighting environment holds itself.
pub const NB_ENV_LUTS: usize = 6;

/// The number of entries of a lookup table.
pub const LUT_LEN: usize = 256;

/// Bit of a lighting environment's flags that marks its light configuration dirty
/// (`C3DF_LightEnv_LCDirty`).
pub const LIGHT_ENV_LC_DIRTY: u32 = 4;

/// Bit of a light's flags that marks its spotlight table dirty (`C3DF_Light_SPDirty`).
pub const LIGHT_SP_DIRTY: u32 = 0x4000;

/// Index for one of the 8 hardware lights in the [lighting environment](LightEnv).
///
/// Usually you don't want to construct one of these directly but use [`LightEnv::create_light`].
#[derive(Clone, Copy, Debug, PartialEq, Eq, Hash)]
pub struct LightIndex(u8);

impl LightIndex {
    /// The light slot this index designates.
    pub closed spec fn spec_index(self) -> nat {
        self.0 as nat
    }

    /// The index of light slot `idx`.
    pub closed spec fn spec_new(idx: nat) -> Self {
        LightIndex(idx as u8)
    }

    /// Manually create a `LightIndex` with a specific index.
    pub fn new(idx: usize) -> (r: Self)
        requires
            idx < NB_LIGHTS,
        ensures
            r == Self::spec_new(idx as nat),
            r.spec_index() == idx,
    {
        LightIndex(idx as u8)
    }

    /// Converts the index back into a raw integer.
    pub fn as_usize(self) -> (r: usize)
        ensures
            r == self.spec_index(),
            r < NB_LIGHTS,
            Self::spec_new(r as nat) == self,
    {
        proof {
            use_type_invariant(self);
        }
        self.0 as usize
    }

    #[verifier::type_invariant]
    spec fn in_range(self) -> bool {
        self.0 < NB_LIGHTS
    }

    /// Converting a slot number to an index and back gives the slot number again,
    /// and rebuilding an index from its slot number gives the same index.
    pub proof fn lemma_round_trip(idx: nat, x: LightIndex)
        requires
            idx < NB_LIGHTS,
        ensures
            Self::spec_new(idx).spec_index() == idx,
            Self::spec_new(x.spec_index()) == x,
    {
    }
}

/// Lookup-table for light data.
///
/// Lighting behaviour is memoized by a LUT which is used during the fragment stage by the GPU.
/// This struct represents a generic LUT, which can be used for different parts of the lighting environment.
#[derive(Clone, Copy, Debug, Hash)]
pub struct Lut {
    data: [u32; 256],
}

impl Lut {
    /// The raw table entries.
    pub closed spec fn spec_data(self) -> Seq<u32> {
        self.data@
    }

    /// Wrap raw table entries, in the hardware's fixed-point encoding.
    pub fn from_data(data: [u32; 256]) -> (r: Self)
        ensures
            r.spec_data() == data@,
    {
        Lut { data }
    }

    /// Returns a reference to the raw LUT data.
    pub fn data(&self) -> (r: &[u32; 256])
        ensures
            r@ == self.spec_data(),
    {
        &self.data
    }

    /// Returns a mutable reference to the raw LUT data.
    pub fn data_mut(&mut self) -> (r: &mut [u32; 256])
        ensures
            r@ == old(self).spec_data(),
            final(self).spec_data() == final(r)@,
    {
        &mut self.data
    }
}

impl PartialEq for Lut {
    fn eq(&self, other: &Self) -> (r: bool) {
        let mut i: usize = 0;
        while i < LUT_LEN
            invariant
                i <= LUT_LEN,
                self.data@.len() == LUT_LEN,
                other.data@.len() == LUT_LEN,
                forall|j: int| 0 <= j < i ==> self.data@[j] == other.data@[j],
            decreases LUT_LEN - i,
        {
            if self.data[i] != other.data[i] {
                return false;
            }
            i = i + 1;
        }
        proof {
            assert(self.data@ =~= other.data@);
        }
        true
    }
}

impl vstd::std_specs::cmp::PartialEqSpecImpl for Lut {
    open spec fn obeys_eq_spec() -> bool {
        true
    }

    open spec fn eq_spec(&self, other: &Self) -> bool {
        self.spec_data() == other.spec_data()
    }
}

impl Eq for Lut {

}

/// One sample taken when a table is memoized from a function: the function is
/// evaluated at `input` times the sampling scale; the value goes to slot
/// `value_slot` of the sampling buffer, if any, and its difference to the value in
/// slot `previous_slot` goes to slot `delta_slot`, if any.
#[derive(Clone, Copy, Debug)]
pub struct LutSample {
    /// The sample position, before scaling.
    pub input: i32,
    /// Where the sampled value is stored.
    pub value_slot: Option<usize>,
    /// Where the difference to the previous sample is stored, and the slot of the
    /// previous sample.
    pub delta: Option<(usize, usize)>,
}

/// The first sample position: `-128` for a table over `[-1, 1]`, `0` for `[0, 1]`.
pub open spec fn spec_lut_start(negative: bool) -> int {
    if negative {
        -128
    } else {
        0
    }
}

/// The buffer slot of the sample at position `i`: negative positions wrap to the
/// upper half of the table.
pub open spec fn spec_lut_slot(negative: bool, i: int) -> int {
    if negative && i < 0 {
        i + 256
    } else {
        i
    }
}

/// Sample number `k` (of 257) when memoizing a function into a table.
pub open spec fn spec_lut_sample(negative: bool, k: int) -> LutSample {
    let i = spec_lut_start(negative) + k;
    LutSample {
        input: i as i32,
        value_slot: if k < 256 {
            Some(spec_lut_slot(negative, i) as usize)
        } else {
            None
        },
        delta: if k > 0 {
            Some(
                (
                    (spec_lut_slot(negative, i) + 255) as usize,
                    spec_lut_slot(negative, i - 1) as usize,
                ),
            )
        } else {
            None
        },
    }
}

/// The samples taken to memoize a function into a table: 257 positions, each
/// value stored in the first half of a 512-slot buffer and each difference to the
/// previous value in the second half (for interpolation).
pub fn lut_samples(negative: bool) -> (r: Vec<LutSample>)
    ensures
        r@ == Seq::new(257, |k: int| spec_lut_sample(negative, k)),
{
    let start: i32 = if negative { -128 } else { 0 };
    let end: i32 = start + 256;
    let mut samples: Vec<LutSample> = Vec::new();
    let mut last_idx: usize = 0;
    let mut i: i32 = start;
    while i <= end
        invariant
            start == spec_lut_start(negative),
            end == start + 256,
            start <= i <= end + 1,
            samples@ == Seq::new((i - start) as nat, |k: int| spec_lut_sample(negative, k)),
            i > start ==> last_idx == spec_lut_slot(negative, i - 1),
        decreases end + 1 - i,
    {
        let idx: usize = if negative {
            let w = i & 0xFF;
            proof {
                assert(-128 <= i <= 128 ==> (i & 0xFF) == (if i < 0 { i as int + 256 } else { i as int }))
                    by (bit_vector);
            }
            w as usize
        } else {
            i as usize
        };
        let value_slot = if i < end { Some(idx) } else { None };
        let delta = if i > start { Some((idx + 255, last_idx)) } else { None };
        samples.push(LutSample { input: i, value_slot, delta });
        last_idx = idx;
        proof {
            assert(samples@ =~= Seq::new((i + 1 - start) as nat, |k: int| spec_lut_sample(negative, k)));
        }
        i = i + 1;
    }
    samples
}

/// Where memoizing a function stores its samples: the value slots of the first 256
/// samples are distinct and each lies in `0..256`; the difference of each later
/// sample is taken to the value of the sample before it and stored at slot 255 or
/// above. For a table over `[0, 1]` every difference lies in the second half
/// (`256..512`), apart from all values. For a table over `[-1, 1]` exactly one
/// difference, that of input 0, lands on slot 255, the value slot of input -1.
pub proof fn lemma_lut_slots_cover(negative: bool, k: int, l: int)
    requires
        0 <= k < 256,
        0 <= l < 256,
        k != l,
    ensures
        ({
            let a = spec_lut_sample(negative, k).value_slot;
            let b = spec_lut_sample(negative, l).value_slot;
            &&& a matches Some(s) && 0 <= s < 256
            &&& a != b
        }),
        spec_lut_sample(negative, k + 1).delta matches Some((d, p)) && 255 <= d < 512 && Some(p)
            == spec_lut_sample(negative, k).value_slot,
        !negative ==> (spec_lut_sample(negative, k + 1).delta matches Some((d, p)) && 256 <= d),
        negative ==> (spec_lut_sample(negative, k + 1).delta matches Some((d, p)) && (d == 255
            <==> k + 1 == 128)),
        negative && k == 127 ==> spec_lut_sample(negative, k).value_slot == Some(255usize),
{
}

/// Lookup-table (plus some additional information) to handle distance attenuation of a light source.
#[derive(Debug)]
pub struct DistanceAttenuation {
    lut: Lut,
    bias: u32,
    scale: u32,
}

impl DistanceAttenuation {
    /// The table.
    pub closed spec fn spec_lut(self) -> Lut {
        self.lut
    }

    /// The raw encoding of the bias.
    pub closed spec fn spec_bias(self) -> u32 {
        self.bias
    }

    /// The raw encoding of the scale.
    pub closed spec fn spec_scale(self) -> u32 {
        self.scale
    }

    /// Assemble a distance attenuation table from its lookup table and the raw
    /// encodings of its bias and scale.
    pub fn from_parts(lut: Lut, bias: u32, scale: u32) -> (r: Self)
        ensures
            r.spec_lut() == lut,
            r.spec_bias() == bias,
            r.spec_scale() == scale,
    {
        DistanceAttenuation { lut, bias, scale }
    }

    /// The lookup table.
    pub fn lut(&self) -> (r: &Lut)
        ensures
            *r == self.spec_lut(),
    {
        &self.lut
    }

    /// The raw encodings of the bias and the scale, in this order.
    pub fn bias_and_scale(&self) -> (r: (u32, u32))
        ensures
            r == (self.spec_bias(), self.spec_scale()),
    {
        (self.bias, self.scale)
    }
}

/// Lookup-table to handle the spotlight area of a light source.
#[derive(Debug)]
pub struct Spotlight {
    lut: Lut,
}

impl Spotlight {
    /// The table.
    pub closed spec fn spec_lut(self) -> Lut {
        self.lut
    }

    /// Creates a new directional spotlight from its table.
    pub fn new(lut: Lut) -> (r: Self)
        ensures
            r.spec_lut() == lut,
    {
        Spotlight { lut }
    }

    /// The lookup table.
    pub fn lut(&self) -> (r: &Lut)
        ensures
            *r == self.spec_lut(),
    {
        &self.lut
    }
}

/// Light source, used by a [`LightEnv`].
///
/// Lights can be simple omnidirectional point lights or setup with a directional
/// spotlight effect.
#[derive(Debug)]
pub struct Light {
    spotlight: Option<Spotlight>,
    distance_attenuation: Option<DistanceAttenuation>,
}

/// The flags of a light once its spotlight table is removed: the spotlight-dirty bit
/// is cleared, so that the GPU never loads a table that is no longer there.
pub open spec fn spec_spot_dirty_cleared(flags: u32) -> u32 {
    flags & !LIGHT_SP_DIRTY
}

impl Light {
    /// The spotlight held by the light.
    pub closed spec fn spec_spotlight(self) -> Option<Spotlight> {
        self.spotlight
    }

    /// The distance attenuation held by the light.
    pub closed spec fn spec_distance_attenuation(self) -> Option<DistanceAttenuation> {
        self.distance_attenuation
    }

    /// A light without spotlight or distance attenuation.
    pub fn new() -> (r: Self)
        ensures
            r.spec_spotlight() is None,
            r.spec_distance_attenuation() is None,
    {
        Light { spotlight: None, distance_attenuation: None }
    }

    /// Sets the [distance attenuation](DistanceAttenuation) behaviour of the light,
    /// returning the table to hand to the GPU (`C3D_LightDistAttn`), if any.
    pub fn set_distance_attenutation(&mut self, lut: Option<DistanceAttenuation>) -> (r: Option<
        &DistanceAttenuation,
    >)
        ensures
            final(self).spec_distance_attenuation() == lut,
            final(self).spec_spotlight() == old(self).spec_spotlight(),
            r is Some <==> lut is Some,
            r matches Some(x) ==> lut == Some(*x),
    {
        self.distance_attenuation = lut;
        self.distance_attenuation.as_ref()
    }

    /// Sets the [spotlight](Spotlight) behaviour of the light, returning the table to
    /// hand to the GPU (`C3D_LightSpotLut`), if any.
    pub fn set_spotlight(&mut self, lut: Option<Spotlight>) -> (r: Option<&Spotlight>)
        ensures
            final(self).spec_spotlight() == lut,
            final(self).spec_distance_attenuation() == old(self).spec_distance_attenuation(),
            r is Some <==> lut is Some,
            r matches Some(x) ==> lut == Some(*x),
    {
        self.spotlight = lut;
        self.spotlight.as_ref()
    }

    /// The spotlight held by the light.
    pub fn spotlight(&self) -> (r: Option<&Spotlight>)
        ensures
            r is Some <==> self.spec_spotlight() is Some,
            r matches Some(x) ==> self.spec_spotlight() == Some(*x),
    {
        self.spotlight.as_ref()
    }

    /// The distance attenuation held by the light.
    pub fn distance_attenuation(&self) -> (r: Option<&DistanceAttenuation>)
        ensures
            r is Some <==> self.spec_distance_attenuation() is Some,
            r matches Some(x) ==> self.spec_distance_attenuation() == Some(*x),
    {
        self.distance_attenuation.as_ref()
    }

    /// The homogeneous position of a light placed at point `p`: `p` with `w = 1.0`.
    pub fn position_vector(p: FVec3) -> (r: FVec4)
        ensures
            r.spec_raw() == seq![F32_ONE_BITS, p.spec_raw()[1], p.spec_raw()[2], p.spec_raw()[3]],
    {
        let raw = p.as_raw();
        let r = FVec4::from_raw([F32_ONE_BITS, raw[1], raw[2], raw[3]]);
        assert(r.spec_raw() =~= seq![F32_ONE_BITS, p.spec_raw()[1], p.spec_raw()[2], p.spec_raw()[3]]);
        r
    }

    /// The raw light flags to keep after the spotlight table was unset: the
    /// spotlight-dirty bit is cleared so that the null table is never loaded.
    pub fn spot_dirty_cleared(flags: u32) -> (r: u32)
        ensures
            r == spec_spot_dirty_cleared(flags),
    {
        flags & !LIGHT_SP_DIRTY
    }

    /// Whether the spotlight of light `id` is off in the environment's light
    /// configuration word `config1`, so that it has to be switched off again after its
    /// direction is set (setting the direction switches it on).
    pub fn spotlight_disabled(config1: u32, id: u32) -> (r: bool)
        requires
            id < NB_LIGHTS,
        ensures
            r == (config1 & (1u32 << ((id + 8) as u32)) != 0),
    {
        config1 & (1u32 << (id + 8)) != 0
    }
}

/// This is used to decide what the input should be to a [`Lut`]
#[derive(Clone, Copy, Debug, PartialEq, Eq, Hash, PartialOrd, Ord)]
pub enum LutInput {
    /// Cosine of the angle from the light direction (spotlights).
    CosPhi,
    /// Dot product of the light and normal vectors.
    LightNormal,
    /// Half the normal.
    NormalHalf,
    /// Dot product of the view and normal.
    NormalView,
    /// Dot product of the spotlight colour and light vector.
    LightSpotLight,
    /// Half the view vector.
    ViewHalf,
}

impl LutInput {
    /// The raw `GPU_LIGHTLUTINPUT` value that encodes this variant.
    pub open spec fn spec_raw(self) -> u8 {
        match self {
            LutInput::CosPhi => 5,
            LutInput::LightNormal => 3,
            LutInput::NormalHalf => 0,
            LutInput::NormalView => 2,
            LutInput::LightSpotLight => 4,
            LutInput::ViewHalf => 1,
        }
    }

    /// The variant that the raw value `value` encodes, if any.
    pub open spec fn spec_from_raw(value: u8) -> Option<Self> {
        if value == 5 {
            Some(LutInput::CosPhi)
        } else if value == 3 {
            Some(LutInput::LightNormal)
        } else if value == 0 {
            Some(LutInput::NormalHalf)
        } else if value == 2 {
            Some(LutInput::NormalView)
        } else if value == 4 {
            Some(LutInput::LightSpotLight)
        } else if value == 1 {
            Some(LutInput::ViewHalf)
        } else {
            None
        }
    }

    /// Each variant encodes to the `GPU_LIGHTLUTINPUT` value that the hardware defines for it, and each of these values decodes to that variant.
    pub proof fn lemma_raw_values()
        ensures
            LutInput::CosPhi.spec_raw() == 5,
            LutInput::LightNormal.spec_raw() == 3,
            LutInput::NormalHalf.spec_raw() == 0,
            LutInput::NormalView.spec_raw() == 2,
            LutInput::LightSpotLight.spec_raw() == 4,
            LutInput::ViewHalf.spec_raw() == 1,
            LutInput::spec_from_raw(5) == Some(LutInput::CosPhi),
            LutInput::spec_from_raw(3) == Some(LutInput::LightNormal),
            LutInput::spec_from_raw(0) == Some(LutInput::NormalHalf),
            LutInput::spec_from_raw(2) == Some(LutInput::NormalView),
            LutInput::spec_from_raw(4) == Some(LutInput::LightSpotLight),
            LutInput::spec_from_raw(1) == Some(LutInput::ViewHalf),
    {
    }

    /// The raw `GPU_LIGHTLUTINPUT` value of this variant.
    pub fn raw(self) -> (r: u8)
        ensures
            r == self.spec_raw(),
    {
        match self {
            LutInput::CosPhi => 5,
            LutInput::LightNormal => 3,
            LutInput::NormalHalf => 0,
            LutInput::NormalView => 2,
            LutInput::LightSpotLight => 4,
            LutInput::ViewHalf => 1,
        }
    }

    /// Encoding a variant and decoding the result gives the variant back, and a
    /// raw value decodes only to the variant that encodes it.
    pub proof fn lemma_raw_round_trip(self, value: u8)
        ensures
            LutInput::spec_from_raw(self.spec_raw()) == Some(self),
            LutInput::spec_from_raw(value) matches Some(e) ==> e.spec_raw() == value,
            LutInput::spec_from_raw(value) is None ==> forall|e: LutInput| e.spec_raw() != value,
    {
    }
}

impl TryFrom<u8> for LutInput {
    type Error = String;

    fn try_from(value: u8) -> (r: Result<Self, String>)
        ensures
            match r {
                Ok(e) => LutInput::spec_from_raw(value) == Some(e),
                Err(s) => LutInput::spec_from_raw(value) is None && s@ == "invalid value for LutInput"@,
            },
    {
        match value {
            5 => Ok(LutInput::CosPhi),
            3 => Ok(LutInput::LightNormal),
            0 => Ok(LutInput::NormalHalf),
            2 => Ok(LutInput::NormalView),
            4 => Ok(LutInput::LightSpotLight),
            1 => Ok(LutInput::ViewHalf),
            _ => Err("invalid value for LutInput".to_string()),
        }
    }
}

impl vstd::std_specs::convert::TryFromSpecImpl<u8> for LutInput {
    open spec fn obeys_try_from_spec() -> bool {
        false
    }

    open spec fn try_from_spec(value: u8) -> Result<Self, String> {
        match LutInput::spec_from_raw(value) {
            Some(e) => Ok(e),
            None => Err(arbitrary()),
        }
    }
}

/// Identifier/index for the various LUTs associated to a [`LightEnv`].
///
/// # Notes
///
/// `Spotlight` and `DistanceAttenuation` are associated to specific light sources,
/// and thus are not associated to an internal lighting index.
#[derive(Clone, Copy, Debug, PartialEq, Eq, Hash, PartialOrd, Ord)]
pub enum LutId {
    /// Specular 0.
    D0,
    /// Specular 1.
    D1,
    /// Spotlight attenuation (used for [`Spotlight`]).
    Spotlight,
    /// Fresnel.
    Fresnel,
    /// Blue reflection component.
    ReflectBlue,
    /// Green reflection component.
    ReflectGreen,
    /// Red reflection component.
    ReflectRed,
    /// Distance attenuation (used for [`DistanceAttenuation`]).
    DistanceAttenuation,
}

impl LutId {
    /// The raw `GPU_LIGHTLUTID` value that encodes this variant.
    pub open spec fn spec_raw(self) -> u8 {
        match self {
            LutId::D0 => 0,
            LutId::D1 => 1,
            LutId::Spotlight => 2,
            LutId::Fresnel => 3,
            LutId::ReflectBlue => 4,
            LutId::ReflectGreen => 5,
            LutId::ReflectRed => 6,
            LutId::DistanceAttenuation => 7,
        }
    }

    /// The variant that the raw value `value` encodes, if any.
    pub open spec fn spec_from_raw(value: u8) -> Option<Self> {
        if value == 0 {
            Some(LutId::D0)
        } else if value == 1 {
            Some(LutId::D1)
        } else if value == 2 {
            Some(LutId::Spotlight)
        } else if value == 3 {
            Some(LutId::Fresnel)
        } else if value == 4 {
            Some(LutId::ReflectBlue)
        } else if value == 5 {
            Some(LutId::ReflectGreen)
        } else if value == 6 {
            Some(LutId::ReflectRed)
        } else if value == 7 {
            Some(LutId::DistanceAttenuation)
        } else {
            None
        }
    }

    /// Each variant encodes to the `GPU_LIGHTLUTID` value that the hardware defines for it, and each of these values decodes to that variant.
    pub proof fn lemma_raw_values()
        ensures
            LutId::D0.spec_raw() == 0,
            LutId::D1.spec_raw() == 1,
            LutId::Spotlight.spec_raw() == 2,
            LutId::Fresnel.spec_raw() == 3,
            LutId::ReflectBlue.spec_raw() == 4,
            LutId::ReflectGreen.spec_raw() == 5,
            LutId::ReflectRed.spec_raw() == 6,
            LutId::DistanceAttenuation.spec_raw() == 7,
            LutId::spec_from_raw(0) == Some(LutId::D0),
            LutId::spec_from_raw(1) == Some(LutId::D1),
            LutId::spec_from_raw(2) == Some(LutId::Spotlight),
            LutId::spec_from_raw(3) == Some(LutId::Fresnel),
            LutId::spec_from_raw(4) == Some(LutId::ReflectBlue),
            LutId::spec_from_raw(5) == Some(LutId::ReflectGreen),
            LutId::spec_from_raw(6) == Some(LutId::ReflectRed),
            LutId::spec_from_raw(7) == Some(LutId::DistanceAttenuation),
    {
    }

    /// The raw `GPU_LIGHTLUTID` value of this variant.
    pub fn raw(self) -> (r: u8)
        ensures
            r == self.spec_raw(),
    {
        match self {
            LutId::D0 => 0,
            LutId::D1 => 1,
            LutId::Spotlight => 2,
            LutId::Fresnel => 3,
            LutId::ReflectBlue => 4,
            LutId::ReflectGreen => 5,
            LutId::ReflectRed => 6,
            LutId::DistanceAttenuation => 7,
        }
    }

    /// Encoding a variant and decoding the result gives the variant back, and a
    /// raw value decodes only to the variant that encodes it.
    pub proof fn lemma_raw_round_trip(self, value: u8)
        ensures
            LutId::spec_from_raw(self.spec_raw()) == Some(self),
            LutId::spec_from_raw(value) matches Some(e) ==> e.spec_raw() == value,
            LutId::spec_from_raw(value) is None ==> forall|e: LutId| e.spec_raw() != value,
    {
    }
}

impl TryFrom<u8> for LutId {
    type Error = String;

    fn try_from(value: u8) -> (r: Result<Self, String>)
        ensures
            match r {
                Ok(e) => LutId::spec_from_raw(value) == Some(e),
                Err(s) => LutId::spec_from_raw(value) is None && s@ == "invalid value for LutId"@,
            },
    {
        match value {
            0 => Ok(LutId::D0),
            1 => Ok(LutId::D1),
            2 => Ok(LutId::Spotlight),
            3 => Ok(LutId::Fresnel),
            4 => Ok(LutId::ReflectBlue),
            5 => Ok(LutId::ReflectGreen),
            6 => Ok(LutId::ReflectRed),
            7 => Ok(LutId::DistanceAttenuation),
            _ => Err("invalid value for LutId".to_string()),
        }
    }
}

impl vstd::std_specs::convert::TryFromSpecImpl<u8> for LutId {
    open spec fn obeys_try_from_spec() -> bool {
        false
    }

    open spec fn try_from_spec(value: u8) -> Result<Self, String> {
        match LutId::spec_from_raw(value) {
            Some(e) => Ok(e),
            None => Err(arbitrary()),
        }
    }
}

/// Which colour units the fresnel factor is selected for.
#[derive(Clone, Copy, Debug, PartialEq, Eq, Hash, PartialOrd, Ord)]
pub enum FresnelSelector {
    /// No fresnel selection.
    NoFresnel,
    /// Use as selector for primary colour unit alpha.
    PrimaryAlpha,
    /// Use as selector for secondary colour unit alpha.
    SecondaryAlpha,
    /// Use as selector for both colour units.
    Both,
}

impl FresnelSelector {
    /// The raw `GPU_FRESNELSEL` value that encodes this variant.
    pub open spec fn spec_raw(self) -> u8 {
        match self {
            FresnelSelector::NoFresnel => 0,
            FresnelSelector::PrimaryAlpha => 1,
            FresnelSelector::SecondaryAlpha => 2,
            FresnelSelector::Both => 3,
        }
    }

    /// The variant that the raw value `value` encodes, if any.
    pub open spec fn spec_from_raw(value: u8) -> Option<Self> {
        if value == 0 {
            Some(FresnelSelector::NoFresnel)
        } else if value == 1 {
            Some(FresnelSelector::PrimaryAlpha)
        } else if value == 2 {
            Some(FresnelSelector::SecondaryAlpha)
        } else if value == 3 {
            Some(FresnelSelector::Both)
        } else {
            None
        }
    }

    /// Each variant encodes to the `GPU_FRESNELSEL` value that the hardware defines for it, and each of these values decodes to that variant.
    pub proof fn lemma_raw_values()
        ensures
            FresnelSelector::NoFresnel.spec_raw() == 0,
            FresnelSelector::PrimaryAlpha.spec_raw() == 1,
            FresnelSelector::SecondaryAlpha.spec_raw() == 2,
            FresnelSelector::Both.spec_raw() == 3,
            FresnelSelector::spec_from_raw(0) == Some(FresnelSelector::NoFresnel),
            FresnelSelector::spec_from_raw(1) == Some(FresnelSelector::PrimaryAlpha),
            FresnelSelector::spec_from_raw(2) == Some(FresnelSelector::SecondaryAlpha),
            FresnelSelector::spec_from_raw(3) == Some(FresnelSelector::Both),
    {
    }

    /// The raw `GPU_FRESNELSEL` value of this variant.
    pub fn raw(self) -> (r: u8)
        ensures
            r == self.spec_raw(),
    {
        match self {
            FresnelSelector::NoFresnel => 0,
            FresnelSelector::PrimaryAlpha => 1,
            FresnelSelector::SecondaryAlpha => 2,
            FresnelSelector::Both => 3,
        }
    }

    /// Encoding a variant and decoding the result gives the variant back, and a
    /// raw value decodes only to the variant that encodes it.
    pub proof fn lemma_raw_round_trip(self, value: u8)
        ensures
            FresnelSelector::spec_from_raw(self.spec_raw()) == Some(self),
            FresnelSelector::spec_from_raw(value) matches Some(e) ==> e.spec_raw() == value,
            FresnelSelector::spec_from_raw(value) is None ==> forall|e: FresnelSelector| e.spec_raw() != value,
    {
    }
}

impl TryFrom<u8> for FresnelSelector {
    type Error = String;

    fn try_from(value: u8) -> (r: Result<Self, String>)
        ensures
            match r {
                Ok(e) => FresnelSelector::spec_from_raw(value) == Some(e),
                Err(s) => FresnelSelector::spec_from_raw(value) is None && s@ == "invalid value for FresnelSelector"@,
            },
    {
        match value {
            0 => Ok(FresnelSelector::NoFresnel),
            1 => Ok(FresnelSelector::PrimaryAlpha),
            2 => Ok(FresnelSelector::SecondaryAlpha),
            3 => Ok(FresnelSelector::Both),
            _ => Err("invalid value for FresnelSelector".to_string()),
        }
    }
}

impl vstd::std_specs::convert::TryFromSpecImpl<u8> for FresnelSelector {
    open spec fn obeys_try_from_spec() -> bool {
        false
    }

    open spec fn try_from_spec(value: u8) -> Result<Self, String> {
        match FresnelSelector::spec_from_raw(value) {
            Some(e) => Ok(e),
            None => Err(arbitrary()),
        }
    }
}

/// LUT scaling factors.
#[derive(Clone, Copy, Debug, PartialEq, Eq)]
pub enum LutScale {
    /// 1x scale.
    OneX,
    /// 2x scale.
    TwoX,
    /// 4x scale.
    FourX,
    /// 8x scale.
    EightX,
    /// 0.25x scale.
    QuarterX,
    /// 0.5x scale.
    HalfX,
}

impl LutScale {
    /// The raw `GPU_LIGHTLUTSCALER` value that encodes this variant.
    pub open spec fn spec_raw(self) -> u8 {
        match self {
            LutScale::OneX => 0,
            LutScale::TwoX => 1,
            LutScale::FourX => 2,
            LutScale::EightX => 3,
            LutScale::QuarterX => 6,
            LutScale::HalfX => 7,
        }
    }

    /// The variant that the raw value `value` encodes, if any.
    pub open spec fn spec_from_raw(value: u8) -> Option<Self> {
        if value == 0 {
            Some(LutScale::OneX)
        } else if value == 1 {
            Some(LutScale::TwoX)
        } else if value == 2 {
            Some(LutScale::FourX)
        } else if value == 3 {
            Some(LutScale::EightX)
        } else if value == 6 {
            Some(LutScale::QuarterX)
        } else if value == 7 {
            Some(LutScale::HalfX)
        } else {
            None
        }
    }

    /// Each variant encodes to the `GPU_LIGHTLUTSCALER` value that the hardware defines for it, and each of these values decodes to that variant.
    pub proof fn lemma_raw_values()
        ensures
            LutScale::OneX.spec_raw() == 0,
            LutScale::TwoX.spec_raw() == 1,
            LutScale::FourX.spec_raw() == 2,
            LutScale::EightX.spec_raw() == 3,
            LutScale::QuarterX.spec_raw() == 6,
            LutScale::HalfX.spec_raw() == 7,
            LutScale::spec_from_raw(0) == Some(LutScale::OneX),
            LutScale::spec_from_raw(1) == Some(LutScale::TwoX),
            LutScale::spec_from_raw(2) == Some(LutScale::FourX),
            LutScale::spec_from_raw(3) == Some(LutScale::EightX),
            LutScale::spec_from_raw(6) == Some(LutScale::QuarterX),
            LutScale::spec_from_raw(7) == Some(LutScale::HalfX),
    {
    }

    /// The raw `GPU_LIGHTLUTSCALER` value of this variant.
    pub fn raw(self) -> (r: u8)
        ensures
            r == self.spec_raw(),
    {
        match self {
            LutScale::OneX => 0,
            LutScale::TwoX => 1,
            LutScale::FourX => 2,
            LutScale::EightX => 3,
            LutScale::QuarterX => 6,
            LutScale::HalfX => 7,
        }
    }

    /// Encoding a variant and decoding the result gives the variant back, and a
    /// raw value decodes only to the variant that encodes it.
    pub proof fn lemma_raw_round_trip(self, value: u8)
        ensures
            LutScale::spec_from_raw(self.spec_raw()) == Some(self),
            LutScale::spec_from_raw(value) matches Some(e) ==> e.spec_raw() == value,
            LutScale::spec_from_raw(value) is None ==> forall|e: LutScale| e.spec_raw() != value,
    {
    }
}

impl TryFrom<u8> for LutScale {
    type Error = String;

    fn try_from(value: u8) -> (r: Result<Self, String>)
        ensures
            match r {
                Ok(e) => LutScale::spec_from_raw(value) == Some(e),
                Err(s) => LutScale::spec_from_raw(value) is None && s@ == "invalid value for LutScale"@,
            },
    {
        match value {
            0 => Ok(LutScale::OneX),
            1 => Ok(LutScale::TwoX),
            2 => Ok(LutScale::FourX),
            3 => Ok(LutScale::EightX),
            6 => Ok(LutScale::QuarterX),
            7 => Ok(LutScale::HalfX),
            _ => Err("invalid value for LutScale".to_string()),
        }
    }
}

impl vstd::std_specs::convert::TryFromSpecImpl<u8> for LutScale {
    open spec fn obeys_try_from_spec() -> bool {
        false
    }

    open spec fn try_from_spec(value: u8) -> Result<Self, String> {
        match LutScale::spec_from_raw(value) {
            Some(e) => Ok(e),
            None => Err(arbitrary()),
        }
    }
}

/// Bump map modes.
#[derive(Clone, Copy, Debug, PartialEq, Eq)]
pub enum BumpMappingMode {
    /// Disabled.
    NotUsed,
    /// Bump as bump mapping.
    AsBump,
    /// Bump as tangent/normal mapping.
    AsTangent,
}

impl BumpMappingMode {
    /// The raw `GPU_BUMPMODE` value that encodes this variant.
    pub open spec fn spec_raw(self) -> u8 {
        match self {
            BumpMappingMode::NotUsed => 0,
            BumpMappingMode::AsBump => 1,
            BumpMappingMode::AsTangent => 2,
        }
    }

    /// The variant that the raw value `value` encodes, if any.
    pub open spec fn spec_from_raw(value: u8) -> Option<Self> {
        if value == 0 {
            Some(BumpMappingMode::NotUsed)
        } else if value == 1 {
            Some(BumpMappingMode::AsBump)
        } else if value == 2 {
            Some(BumpMappingMode::AsTangent)
        } else {
            None
        }
    }

    /// Each variant encodes to the `GPU_BUMPMODE` value that the hardware defines for it, and each of these values decodes to that variant.
    pub proof fn lemma_raw_values()
        ensures
            BumpMappingMode::NotUsed.spec_raw() == 0,
            BumpMappingMode::AsBump.spec_raw() == 1,
            BumpMappingMode::AsTangent.spec_raw() == 2,
            BumpMappingMode::spec_from_raw(0) == Some(BumpMappingMode::NotUsed),
            BumpMappingMode::spec_from_raw(1) == Some(BumpMappingMode::AsBump),
            BumpMappingMode::spec_from_raw(2) == Some(BumpMappingMode::AsTangent),
    {
    }

    /// The raw `GPU_BUMPMODE` value of this variant.
    pub fn raw(self) -> (r: u8)
        ensures
            r == self.spec_raw(),
    {
        match self {
            BumpMappingMode::NotUsed => 0,
            BumpMappingMode::AsBump => 1,
            BumpMappingMode::AsTangent => 2,
        }
    }

    /// Encoding a variant and decoding the result gives the variant back, and a
    /// raw value decodes only to the variant that encodes it.
    pub proof fn lemma_raw_round_trip(self, value: u8)
        ensures
            BumpMappingMode::spec_from_raw(self.spec_raw()) == Some(self),
            BumpMappingMode::spec_from_raw(value) matches Some(e) ==> e.spec_raw() == value,
            BumpMappingMode::spec_from_raw(value) is None ==> forall|e: BumpMappingMode| e.spec_raw() != value,
    {
    }
}

impl TryFrom<u8> for BumpMappingMode {
    type Error = String;

    fn try_from(value: u8) -> (r: Result<Self, String>)
        ensures
            match r {
                Ok(e) => BumpMappingMode::spec_from_raw(value) == Some(e),
                Err(s) => BumpMappingMode::spec_from_raw(value) is None && s@ == "invalid value for BumpMappingMode"@,
            },
    {
        match value {
            0 => Ok(BumpMappingMode::NotUsed),
            1 => Ok(BumpMappingMode::AsBump),
            2 => Ok(BumpMappingMode::AsTangent),
            _ => Err("invalid value for BumpMappingMode".to_string()),
        }
    }
}

impl vstd::std_specs::convert::TryFromSpecImpl<u8> for BumpMappingMode {
    open spec fn obeys_try_from_spec() -> bool {
        false
    }

    open spec fn try_from_spec(value: u8) -> Result<Self, String> {
        match BumpMappingMode::spec_from_raw(value) {
            Some(e) => Ok(e),
            None => Err(arbitrary()),
        }
    }
}

/// The index among a lighting environment's own tables of the table `id`, if the
/// environment holds that table itself (spotlight and distance attenuation tables
/// belong to the individual lights).
pub open spec fn spec_lut_id_to_index(id: LutId) -> Option<usize> {
    match id {
        LutId::D0 => Some(0usize),
        LutId::D1 => Some(1usize),
        LutId::Spotlight => None,
        LutId::Fresnel => Some(2usize),
        LutId::ReflectBlue => Some(3usize),
        LutId::ReflectGreen => Some(4usize),
        LutId::ReflectRed => Some(5usize),
        LutId::DistanceAttenuation => None,
    }
}

/// The environment's tables after `data` is connected as table `id`.
pub open spec fn spec_connect(luts: Seq<Option<Lut>>, id: LutId, data: Lut) -> Seq<Option<Lut>> {
    match spec_lut_id_to_index(id) {
        Some(i) => luts.update(i as int, Some(data)),
        None => luts,
    }
}

/// The environment's tables after table `id` is disconnected, and the table that was
/// disconnected, if any.
pub open spec fn spec_disconnect(luts: Seq<Option<Lut>>, id: LutId) -> (Seq<Option<Lut>>, Option<
    Lut,
>) {
    match spec_lut_id_to_index(id) {
        Some(i) => (luts.update(i as int, None), luts[i as int]),
        None => (luts, None),
    }
}

/// The raw flags of a lighting environment once a light was removed from it: the
/// light configuration is marked dirty so that the GPU state is rebuilt.
pub open spec fn spec_lights_dirty(flags: u32) -> u32 {
    flags | LIGHT_ENV_LC_DIRTY
}

/// Connecting a table and then disconnecting the same kind of table gives the
/// connected table back, and leaves the tables as disconnecting alone would; the
/// spotlight and distance attenuation kinds are never held by the environment.
pub proof fn lemma_connect_then_disconnect(luts: Seq<Option<Lut>>, id: LutId, data: Lut)
    requires
        luts.len() == NB_ENV_LUTS,
    ensures
        spec_disconnect(spec_connect(luts, id, data), id).1 == (if spec_lut_id_to_index(id) is Some {
            Some(data)
        } else {
            None::<Lut>
        }),
        spec_disconnect(spec_connect(luts, id, data), id).0 == spec_disconnect(luts, id).0,
{
    match spec_lut_id_to_index(id) {
        Some(i) => {
            assert(luts.update(i as int, Some(data)).update(i as int, None) =~= luts.update(
                i as int,
                None,
            ));
        },
        None => {},
    }
}

/// The environment keeps its own tables in the order of their hardware ids, skipping
/// the spotlight id: the tables with ids 0 and 1 (D0, D1) in slots 0 and 1, those with
/// ids 3 to 6 (Fresnel and the blue, green and red reflections) in slots 2 to 5. The
/// spotlight (id 2) and distance attenuation (id 7) tables belong to the lights.
pub proof fn lemma_lut_slots_follow_ids(id: LutId)
    ensures
        spec_lut_id_to_index(id) is None <==> (id.spec_raw() == 2 || id.spec_raw() == 7),
        spec_lut_id_to_index(id) matches Some(i) ==> i == (if id.spec_raw() < 2 {
            id.spec_raw() as int
        } else {
            id.spec_raw() - 1
        }),
{
}

/// Distinct kinds of table held by the environment occupy distinct slots, all of
/// them among its 6 table slots.
pub proof fn lemma_lut_slots_distinct(a: LutId, b: LutId)
    ensures
        spec_lut_id_to_index(a) matches Some(i) ==> i < NB_ENV_LUTS,
        spec_lut_id_to_index(a) is Some && spec_lut_id_to_index(a) == spec_lut_id_to_index(b)
            ==> a == b,
{
}

/// Destroying a light that was just set up in a free slot gives back the light slots
/// as they were before it was set up.
pub proof fn lemma_destroy_undoes_create(lights: Seq<Option<Light>>, idx: nat, light: Light)
    requires
        idx < lights.len(),
        lights[idx as int] is None,
    ensures
        lights.update(idx as int, Some(light)).update(idx as int, None) == lights,
{
    assert(lights.update(idx as int, Some(light)).update(idx as int, None) =~= lights);
}

/// Lighting environment, passed as one of the fragment stages.
///
/// A [`LightEnv`] is comprised of 8 different [lights](Light) governed by the same
/// lighting algorithm, and of the lookup tables connected to it.
#[derive(Debug)]
pub struct LightEnv {
    lights: [Option<Light>; 8],
    luts: [Option<Lut>; 6],
}

impl LightEnv {
    /// The light slots.
    pub closed spec fn spec_lights(self) -> Seq<Option<Light>> {
        self.lights@
    }

    /// The whole array of light slots.
    pub fn lights(&self) -> (r: &[Option<Light>; 8])
        ensures
            r@ == self.spec_lights(),
    {
        &self.lights
    }

    /// The whole array of light slots, to change lights in place.
    pub fn lights_mut(&mut self) -> (r: &mut [Option<Light>; 8])
        ensures
            r@ == old(self).spec_lights(),
            final(self).spec_lights() == final(r)@,
            final(self).spec_luts() == old(self).spec_luts(),
    {
        &mut self.lights
    }

    /// Which light slots are in use.
    pub open spec fn spec_used(self) -> Seq<bool> {
        self.spec_lights().map_values(|l: Option<Light>| l is Some)
    }

    /// The environment's own lookup tables.
    pub closed spec fn spec_luts(self) -> Seq<Option<Lut>> {
        self.luts@
    }

    /// The environment has 8 light slots and 6 table slots.
    pub proof fn lemma_shape(self)
        ensures
            self.spec_lights().len() == NB_LIGHTS,
            self.spec_luts().len() == NB_ENV_LUTS,
    {
    }

    /// Constructs a new lighting environment with no lights and no tables.
    pub fn new() -> (r: Self)
        ensures
            forall|i: int| 0 <= i < NB_LIGHTS ==> r.spec_lights()[i] is None,
            forall|i: int| 0 <= i < NB_ENV_LUTS ==> r.spec_luts()[i] is None,
    {
        LightEnv {
            lights: [None, None, None, None, None, None, None, None],
            luts: [None, None, None, None, None, None],
        }
    }

    /// Sets up a new light source in the lowest free slot and returns its index.
    ///
    /// If no more light sources can be created, [`None`] is returned.
    pub fn create_light(&mut self) -> (r: Option<LightIndex>)
        ensures
            r is None <==> forall|i: int| 0 <= i < NB_LIGHTS ==> old(self).spec_lights()[i] is Some,
            r is None ==> final(self).spec_lights() == old(self).spec_lights(),
            r matches Some(idx) ==> {
                &&& old(self).spec_lights()[idx.spec_index() as int] is None
                &&& forall|j: int| 0 <= j < idx.spec_index() ==> old(self).spec_lights()[j] is Some
                &&& final(self).spec_lights()[idx.spec_index() as int] matches Some(l)
                    && l.spec_spotlight() is None && l.spec_distance_attenuation() is None
                &&& forall|j: int|
                    0 <= j < NB_LIGHTS && j != idx.spec_index() ==> final(self).spec_lights()[j]
                        == old(self).spec_lights()[j]
            },
            final(self).spec_luts() == old(self).spec_luts(),
    {
        let mut i: usize = 0;
        while i < NB_LIGHTS
            invariant
                i <= NB_LIGHTS,
                self.lights@ == old(self).lights@,
                self.luts@ == old(self).luts@,
                forall|j: int| 0 <= j < i ==> old(self).lights@[j] is Some,
            decreases NB_LIGHTS - i,
        {
            if self.lights[i].is_none() {
                self.lights[i] = Some(Light::new());
                return Some(LightIndex::new(i));
            }
            i = i + 1;
        }
        None
    }

    /// Uninitalizes and disables the light at a specific index.
    pub fn destroy_light(&mut self, idx: LightIndex)
        ensures
            final(self).spec_lights() == old(self).spec_lights().update(idx.spec_index() as int, None),
            final(self).spec_luts() == old(self).spec_luts(),
    {
        let i = idx.as_usize();
        self.lights[i] = None;
    }

    /// The raw environment flags to set once a light was removed from it.
    pub fn lights_dirty(flags: u32) -> (r: u32)
        ensures
            r == spec_lights_dirty(flags),
    {
        flags | LIGHT_ENV_LC_DIRTY
    }

    /// Returns a reference to the light at a particular index, if it is set up.
    pub fn light(&self, idx: LightIndex) -> (r: Option<&Light>)
        ensures
            r is Some <==> self.spec_lights()[idx.spec_index() as int] is Some,
            r matches Some(l) ==> self.spec_lights()[idx.spec_index() as int] == Some(*l),
    {
        let i = idx.as_usize();
        self.lights[i].as_ref()
    }

    /// Returns a mutable reference to the light at a particular index, if it is set up.
    pub fn light_mut(&mut self, idx: LightIndex) -> (r: Option<&mut Light>)
        ensures
            r is Some <==> old(self).spec_lights()[idx.spec_index() as int] is Some,
            r matches Some(l) ==> old(self).spec_lights()[idx.spec_index() as int] == Some(*l)
                && final(self).spec_lights() == old(self).spec_lights().update(
                idx.spec_index() as int,
                Some(*final(l)),
            ),
            r is None ==> final(self).spec_lights() == old(self).spec_lights(),
            final(self).spec_luts() == old(self).spec_luts(),
    {
        let i = idx.as_usize();
        self.lights[i].as_mut()
    }

    /// The slot among the environment's own tables of the table kind `id`, if the
    /// environment holds tables of that kind.
    pub fn lut_id_to_index(id: LutId) -> (r: Option<usize>)
        ensures
            r == spec_lut_id_to_index(id),
    {
        match id {
            LutId::D0 => Some(0),
            LutId::D1 => Some(1),
            LutId::Spotlight => None,
            LutId::Fresnel => Some(2),
            LutId::ReflectBlue => Some(3),
            LutId::ReflectGreen => Some(4),
            LutId::ReflectRed => Some(5),
            LutId::DistanceAttenuation => None,
        }
    }

    /// Attempts to disconnect a light lookup-table.
    ///
    /// This function returns [`None`] if no LUT was connected for `id`.
    /// Otherwise, returns the disconnected LUT (and the GPU's table has to be unset).
    pub fn disconnect_lut(&mut self, id: LutId, input: LutInput) -> (r: Option<Lut>)
        ensures
            (final(self).spec_luts(), r) == spec_disconnect(old(self).spec_luts(), id),
            final(self).spec_lights() == old(self).spec_lights(),
    {
        match Self::lut_id_to_index(id) {
            Some(i) => {
                let lut = self.luts[i];
                self.luts[i] = None;
                lut
            },
            None => None,
        }
    }

    /// Connects a light lookup-table at the given index, with a given input. Returns
    /// the stored table to hand to the GPU, or [`None`] when the environment does not
    /// hold tables of kind `id` itself.
    pub fn connect_lut(&mut self, id: LutId, input: LutInput, data: Lut) -> (r: Option<Lut>)
        ensures
            final(self).spec_luts() == spec_connect(old(self).spec_luts(), id, data),
            final(self).spec_lights() == old(self).spec_lights(),
            r is Some <==> spec_lut_id_to_index(id) is Some,
            r matches Some(l) ==> l == data,
    {
        match Self::lut_id_to_index(id) {
            Some(i) => {
                self.luts[i] = Some(data);
                Some(data)
            },
            None => None,
        }
    }
}

} // verus!
