//! Fog/Gas unit configuration.

use vstd::pervasive::arbitrary;
use vstd::prelude::*;

verus! {

/// Fog modes.
#[derive(Clone, Copy, Debug, PartialEq, Eq)]
pub enum FogMode {
    /// Fog/Gas unit disabled.
    NoFog,
    /// Fog/Gas unit configured in Fog mode.
    Fog,
    /// Fog/Gas unit configured in Gas mode.
    Gas,
}

impl FogMode {
    /// The raw `GPU_FOGMODE` value that encodes this variant.
    pub open spec fn spec_raw(self) -> u8 {
        match self {
            FogMode::NoFog => 0,
            FogMode::Fog => 5,
            FogMode::Gas => 7,
        }
    }

    /// The variant that the raw value `value` encodes, if any.
    pub open spec fn spec_from_raw(value: u8) -> Option<Self> {
        if value == 0 {
            Some(FogMode::NoFog)
        } else if value == 5 {
            Some(FogMode::Fog)
        } else if value == 7 {
            Some(FogMode::Gas)
        } else {
            None
        }
    }

    /// Each variant encodes to the `GPU_FOGMODE` value that the hardware defines for it, and each of these values decodes to that variant.
    pub proof fn lemma_raw_values()
        ensures
            FogMode::NoFog.spec_raw() == 0,
            FogMode::Fog.spec_raw() == 5,
            FogMode::Gas.spec_raw() == 7,
            FogMode::spec_from_raw(0) == Some(FogMode::NoFog),
            FogMode::spec_from_raw(5) == Some(FogMode::Fog),
            FogMode::spec_from_raw(7) == Some(FogMode::Gas),
    {
    }

    /// The raw `GPU_FOGMODE` value of this variant.
    pub fn raw(self) -> (r: u8)
        ensures
            r == self.spec_raw(),
    {
        match self {
            FogMode::NoFog => 0,
            FogMode::Fog => 5,
            FogMode::Gas => 7,
        }
    }

    /// Encoding a variant and decoding the result gives the variant back, and a
    /// raw value decodes only to the variant that encodes it.
    pub proof fn lemma_raw_round_trip(self, value: u8)
        ensures
            FogMode::spec_from_raw(self.spec_raw()) == Some(self),
            FogMode::spec_from_raw(value) matches Some(e) ==> e.spec_raw() == value,
            FogMode::spec_from_raw(value) is None ==> forall|e: FogMode| e.spec_raw() != value,
    {
    }
}

impl TryFrom<u8> for FogMode {
    type Error = String;

    fn try_from(value: u8) -> (r: Result<Self, String>)
        ensures
            match r {
                Ok(e) => FogMode::spec_from_raw(value) == Some(e),
                Err(s) => FogMode::spec_from_raw(value) is None && s@ == "invalid value for FogMode"@,
            },
    {
        match value {
            0 => Ok(FogMode::NoFog),
            5 => Ok(FogMode::Fog),
            7 => Ok(FogMode::Gas),
            _ => Err("invalid value for FogMode".to_string()),
        }
    }
}

impl vstd::std_specs::convert::TryFromSpecImpl<u8> for FogMode {
    open spec fn obeys_try_from_spec() -> bool {
        false
    }

    open spec fn try_from_spec(value: u8) -> Result<Self, String> {
        match FogMode::spec_from_raw(value) {
            Some(e) => Ok(e),
            None => Err(arbitrary()),
        }
    }
}

/// Gas shading density source values.
#[derive(Clone, Copy, Debug, PartialEq, Eq)]
pub enum GasMode {
    /// Plain density.
    PlainDensity,
    /// Depth density.
    DepthDensity,
}

impl GasMode {
    /// The raw `GPU_GASMODE` value that encodes this variant.
    pub open spec fn spec_raw(self) -> u8 {
        match self {
            GasMode::PlainDensity => 0,
            GasMode::DepthDensity => 1,
        }
    }

    /// The variant that the raw value `value` encodes, if any.
    pub open spec fn spec_from_raw(value: u8) -> Option<Self> {
        if value == 0 {
            Some(GasMode::PlainDensity)
        } else if value == 1 {
            Some(GasMode::DepthDensity)
        } else {
            None
        }
    }

    /// Each variant encodes to the `GPU_GASMODE` value that the hardware defines for it, and each of these values decodes to that variant.
    pub proof fn lemma_raw_values()
        ensures
            GasMode::PlainDensity.spec_raw() == 0,
            GasMode::DepthDensity.spec_raw() == 1,
            GasMode::spec_from_raw(0) == Some(GasMode::PlainDensity),
            GasMode::spec_from_raw(1) == Some(GasMode::DepthDensity),
    {
    }

    /// The raw `GPU_GASMODE` value of this variant.
    pub fn raw(self) -> (r: u8)
        ensures
            r == self.spec_raw(),
    {
        match self {
            GasMode::PlainDensity => 0,
            GasMode::DepthDensity => 1,
        }
    }

    /// Encoding a variant and decoding the result gives the variant back, and a
    /// raw value decodes only to the variant that encodes it.
    pub proof fn lemma_raw_round_trip(self, value: u8)
        ensures
            GasMode::spec_from_raw(self.spec_raw()) == Some(self),
            GasMode::spec_from_raw(value) matches Some(e) ==> e.spec_raw() == value,
            GasMode::spec_from_raw(value) is None ==> forall|e: GasMode| e.spec_raw() != value,
    {
    }
}

impl TryFrom<u8> for GasMode {
    type Error = String;

    fn try_from(value: u8) -> (r: Result<Self, String>)
        ensures
            match r {
                Ok(e) => GasMode::spec_from_raw(value) == Some(e),
                Err(s) => GasMode::spec_from_raw(value) is None && s@ == "invalid value for GasMode"@,
            },
    {
        match value {
            0 => Ok(GasMode::PlainDensity),
            1 => Ok(GasMode::DepthDensity),
            _ => Err("invalid value for GasMode".to_string()),
        }
    }
}

impl vstd::std_specs::convert::TryFromSpecImpl<u8> for GasMode {
    open spec fn obeys_try_from_spec() -> bool {
        false
    }

    open spec fn try_from_spec(value: u8) -> Result<Self, String> {
        match GasMode::spec_from_raw(value) {
            Some(e) => Ok(e),
            None => Err(arbitrary()),
        }
    }
}

/// Gas color LUT inputs.
#[derive(Clone, Copy, Debug, PartialEq, Eq)]
pub enum GasLutInput {
    /// Gas density used as input.
    Density,
    /// Light factor used as input.
    LightFactor,
}

impl GasLutInput {
    /// The raw `GPU_GASLUTINPUT` value that encodes this variant.
    pub open spec fn spec_raw(self) -> u8 {
        match self {
            GasLutInput::Density => 0,
            GasLutInput::LightFactor => 1,
        }
    }

    /// The variant that the raw value `value` encodes, if any.
    pub open spec fn spec_from_raw(value: u8) -> Option<Self> {
        if value == 0 {
            Some(GasLutInput::Density)
        } else if value == 1 {
            Some(GasLutInput::LightFactor)
        } else {
            None
        }
    }

    /// Each variant encodes to the `GPU_GASLUTINPUT` value that the hardware defines for it, and each of these values decodes to that variant.
    pub proof fn lemma_raw_values()
        ensures
            GasLutInput::Density.spec_raw() == 0,
            GasLutInput::LightFactor.spec_raw() == 1,
            GasLutInput::spec_from_raw(0) == Some(GasLutInput::Density),
            GasLutInput::spec_from_raw(1) == Some(GasLutInput::LightFactor),
    {
    }

    /// The raw `GPU_GASLUTINPUT` value of this variant.
    pub fn raw(self) -> (r: u8)
        ensures
            r == self.spec_raw(),
    {
        match self {
            GasLutInput::Density => 0,
            GasLutInput::LightFactor => 1,
        }
    }

    /// Encoding a variant and decoding the result gives the variant back, and a
    /// raw value decodes only to the variant that encodes it.
    pub proof fn lemma_raw_round_trip(self, value: u8)
        ensures
            GasLutInput::spec_from_raw(self.spec_raw()) == Some(self),
            GasLutInput::spec_from_raw(value) matches Some(e) ==> e.spec_raw() == value,
            GasLutInput::spec_from_raw(value) is None ==> forall|e: GasLutInput| e.spec_raw() != value,
    {
    }
}

impl TryFrom<u8> for GasLutInput {
    type Error = String;

    fn try_from(value: u8) -> (r: Result<Self, String>)
        ensures
            match r {
                Ok(e) => GasLutInput::spec_from_raw(value) == Some(e),
                Err(s) => GasLutInput::spec_from_raw(value) is None && s@ == "invalid value for GasLutInput"@,
            },
    {
        match value {
            0 => Ok(GasLutInput::Density),
            1 => Ok(GasLutInput::LightFactor),
            _ => Err("invalid value for GasLutInput".to_string()),
        }
    }
}

impl vstd::std_specs::convert::TryFromSpecImpl<u8> for GasLutInput {
    open spec fn obeys_try_from_spec() -> bool {
        false
    }

    open spec fn try_from_spec(value: u8) -> Result<Self, String> {
        match GasLutInput::spec_from_raw(value) {
            Some(e) => Ok(e),
            None => Err(arbitrary()),
        }
    }
}

/// Gas depth functions.
#[derive(Clone, Copy, Debug, PartialEq, Eq)]
pub enum GasDepthFunction {
    /// Never pass (0).
    Never,
    /// Always pass (1).
    Always,
    /// Pass if greater than (1-X).
    Greater,
    /// Pass if less than (X).
    Less,
}

impl GasDepthFunction {
    /// The raw `GPU_GASDEPTHFUNC` value that encodes this variant.
    pub open spec fn spec_raw(self) -> u8 {
        match self {
            GasDepthFunction::Never => 0,
            GasDepthFunction::Always => 1,
            GasDepthFunction::Greater => 2,
            GasDepthFunction::Less => 3,
        }
    }

    /// The variant that the raw value `value` encodes, if any.
    pub open spec fn spec_from_raw(value: u8) -> Option<Self> {
        if value == 0 {
            Some(GasDepthFunction::Never)
        } else if value == 1 {
            Some(GasDepthFunction::Always)
        } else if value == 2 {
            Some(GasDepthFunction::Greater)
        } else if value == 3 {
            Some(GasDepthFunction::Less)
        } else {
            None
        }
    }

    /// Each variant encodes to the `GPU_GASDEPTHFUNC` value that the hardware defines for it, and each of these values decodes to that variant.
    pub proof fn lemma_raw_values()
        ensures
            GasDepthFunction::Never.spec_raw() == 0,
            GasDepthFunction::Always.spec_raw() == 1,
            GasDepthFunction::Greater.spec_raw() == 2,
            GasDepthFunction::Less.spec_raw() == 3,
            GasDepthFunction::spec_from_raw(0) == Some(GasDepthFunction::Never),
            GasDepthFunction::spec_from_raw(1) == Some(GasDepthFunction::Always),
            GasDepthFunction::spec_from_raw(2) == Some(GasDepthFunction::Greater),
            GasDepthFunction::spec_from_raw(3) == Some(GasDepthFunction::Less),
    {
    }

    /// The raw `GPU_GASDEPTHFUNC` value of this variant.
    pub fn raw(self) -> (r: u8)
        ensures
            r == self.spec_raw(),
    {
        match self {
            GasDepthFunction::Never => 0,
            GasDepthFunction::Always => 1,
            GasDepthFunction::Greater => 2,
            GasDepthFunction::Less => 3,
        }
    }

    /// Encoding a variant and decoding the result gives the variant back, and a
    /// raw value decodes only to the variant that encodes it.
    pub proof fn lemma_raw_round_trip(self, value: u8)
        ensures
            GasDepthFunction::spec_from_raw(self.spec_raw()) == Some(self),
            GasDepthFunction::spec_from_raw(value) matches Some(e) ==> e.spec_raw() == value,
            GasDepthFunction::spec_from_raw(value) is None ==> forall|e: GasDepthFunction| e.spec_raw() != value,
    {
    }
}

impl TryFrom<u8> for GasDepthFunction {
    type Error = String;

    fn try_from(value: u8) -> (r: Result<Self, String>)
        ensures
            match r {
                Ok(e) => GasDepthFunction::spec_from_raw(value) == Some(e),
                Err(s) => GasDepthFunction::spec_from_raw(value) is None && s@ == "invalid value for GasDepthFunction"@,
            },
    {
        match value {
            0 => Ok(GasDepthFunction::Never),
            1 => Ok(GasDepthFunction::Always),
            2 => Ok(GasDepthFunction::Greater),
            3 => Ok(GasDepthFunction::Less),
            _ => Err("invalid value for GasDepthFunction".to_string()),
        }
    }
}

impl vstd::std_specs::convert::TryFromSpecImpl<u8> for GasDepthFunction {
    open spec fn obeys_try_from_spec() -> bool {
        false
    }

    open spec fn try_from_spec(value: u8) -> Result<Self, String> {
        match GasDepthFunction::spec_from_raw(value) {
            Some(e) => Ok(e),
            None => Err(arbitrary()),
        }
    }
}

} // verus!
