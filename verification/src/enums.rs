//! Raw GPU configuration values, each with its decoding from a `u8`.

use vstd::pervasive::arbitrary;
use vstd::prelude::*;

verus! {

/// Test functions.
#[derive(Clone, Copy, Debug, PartialEq, Eq)]
pub enum TestFunction {
    /// Never pass.
    Never,
    /// Always pass.
    Always,
    /// Pass if equal.
    Equal,
    /// Pass if not equal.
    NotEqual,
    /// Pass if less than.
    Less,
    /// Pass if less than or equal.
    LessOrEqual,
    /// Pass if greater than.
    Greater,
    /// Pass if greater than or equal.
    GreaterOrEqual,
}

impl TestFunction {
    /// The raw `GPU_TESTFUNC` value that encodes this variant.
    pub open spec fn spec_raw(self) -> u8 {
        match self {
            TestFunction::Never => 0,
            TestFunction::Always => 1,
            TestFunction::Equal => 2,
            TestFunction::NotEqual => 3,
            TestFunction::Less => 4,
            TestFunction::LessOrEqual => 5,
            TestFunction::Greater => 6,
            TestFunction::GreaterOrEqual => 7,
        }
    }

    /// The variant that the raw value `value` encodes, if any.
    pub open spec fn spec_from_raw(value: u8) -> Option<Self> {
        if value == 0 {
            Some(TestFunction::Never)
        } else if value == 1 {
            Some(TestFunction::Always)
        } else if value == 2 {
            Some(TestFunction::Equal)
        } else if value == 3 {
            Some(TestFunction::NotEqual)
        } else if value == 4 {
            Some(TestFunction::Less)
        } else if value == 5 {
            Some(TestFunction::LessOrEqual)
        } else if value == 6 {
            Some(TestFunction::Greater)
        } else if value == 7 {
            Some(TestFunction::GreaterOrEqual)
        } else {
            None
        }
    }

    /// Each variant encodes to the `GPU_TESTFUNC` value that the hardware defines for it, and each of these values decodes to that variant.
    pub proof fn lemma_raw_values()
        ensures
            TestFunction::Never.spec_raw() == 0,
            TestFunction::Always.spec_raw() == 1,
            TestFunction::Equal.spec_raw() == 2,
            TestFunction::NotEqual.spec_raw() == 3,
            TestFunction::Less.spec_raw() == 4,
            TestFunction::LessOrEqual.spec_raw() == 5,
            TestFunction::Greater.spec_raw() == 6,
            TestFunction::GreaterOrEqual.spec_raw() == 7,
            TestFunction::spec_from_raw(0) == Some(TestFunction::Never),
            TestFunction::spec_from_raw(1) == Some(TestFunction::Always),
            TestFunction::spec_from_raw(2) == Some(TestFunction::Equal),
            TestFunction::spec_from_raw(3) == Some(TestFunction::NotEqual),
            TestFunction::spec_from_raw(4) == Some(TestFunction::Less),
            TestFunction::spec_from_raw(5) == Some(TestFunction::LessOrEqual),
            TestFunction::spec_from_raw(6) == Some(TestFunction::Greater),
            TestFunction::spec_from_raw(7) == Some(TestFunction::GreaterOrEqual),
    {
    }

    /// The raw `GPU_TESTFUNC` value of this variant.
    pub fn raw(self) -> (r: u8)
        ensures
            r == self.spec_raw(),
    {
        match self {
            TestFunction::Never => 0,
            TestFunction::Always => 1,
            TestFunction::Equal => 2,
            TestFunction::NotEqual => 3,
            TestFunction::Less => 4,
            TestFunction::LessOrEqual => 5,
            TestFunction::Greater => 6,
            TestFunction::GreaterOrEqual => 7,
        }
    }

    /// Encoding a variant and decoding the result gives the variant back, and a
    /// raw value decodes only to the variant that encodes it.
    pub proof fn lemma_raw_round_trip(self, value: u8)
        ensures
            TestFunction::spec_from_raw(self.spec_raw()) == Some(self),
            TestFunction::spec_from_raw(value) matches Some(e) ==> e.spec_raw() == value,
            TestFunction::spec_from_raw(value) is None ==> forall|e: TestFunction| e.spec_raw() != value,
    {
    }
}

impl TryFrom<u8> for TestFunction {
    type Error = String;

    fn try_from(value: u8) -> (r: Result<Self, String>)
        ensures
            match r {
                Ok(e) => TestFunction::spec_from_raw(value) == Some(e),
                Err(s) => TestFunction::spec_from_raw(value) is None && s@ == "Invalid value for TestFunction"@,
            },
    {
        match value {
            0 => Ok(TestFunction::Never),
            1 => Ok(TestFunction::Always),
            2 => Ok(TestFunction::Equal),
            3 => Ok(TestFunction::NotEqual),
            4 => Ok(TestFunction::Less),
            5 => Ok(TestFunction::LessOrEqual),
            6 => Ok(TestFunction::Greater),
            7 => Ok(TestFunction::GreaterOrEqual),
            _ => Err("Invalid value for TestFunction".to_string()),
        }
    }
}

impl vstd::std_specs::convert::TryFromSpecImpl<u8> for TestFunction {
    open spec fn obeys_try_from_spec() -> bool {
        false
    }

    open spec fn try_from_spec(value: u8) -> Result<Self, String> {
        match TestFunction::spec_from_raw(value) {
            Some(e) => Ok(e),
            None => Err(arbitrary()),
        }
    }
}

/// Early depth test functions.
#[derive(Clone, Copy, Debug, PartialEq, Eq)]
pub enum EarlyDepthFunction {
    /// Pass if greater than or equal.
    GreaterOrEqual,
    /// Pass if greater than.
    Greater,
    /// Pass if less than or equal.
    LessOrEqual,
    /// Pass if less than.
    Less,
}

impl EarlyDepthFunction {
    /// The raw `GPU_EARLYDEPTHFUNC` value that encodes this variant.
    pub open spec fn spec_raw(self) -> u8 {
        match self {
            EarlyDepthFunction::GreaterOrEqual => 0,
            EarlyDepthFunction::Greater => 1,
            EarlyDepthFunction::LessOrEqual => 2,
            EarlyDepthFunction::Less => 3,
        }
    }

    /// The variant that the raw value `value` encodes, if any.
    pub open spec fn spec_from_raw(value: u8) -> Option<Self> {
        if value == 0 {
            Some(EarlyDepthFunction::GreaterOrEqual)
        } else if value == 1 {
            Some(EarlyDepthFunction::Greater)
        } else if value == 2 {
            Some(EarlyDepthFunction::LessOrEqual)
        } else if value == 3 {
            Some(EarlyDepthFunction::Less)
        } else {
            None
        }
    }

    /// Each variant encodes to the `GPU_EARLYDEPTHFUNC` value that the hardware defines for it, and each of these values decodes to that variant.
    pub proof fn lemma_raw_values()
        ensures
            EarlyDepthFunction::GreaterOrEqual.spec_raw() == 0,
            EarlyDepthFunction::Greater.spec_raw() == 1,
            EarlyDepthFunction::LessOrEqual.spec_raw() == 2,
            EarlyDepthFunction::Less.spec_raw() == 3,
            EarlyDepthFunction::spec_from_raw(0) == Some(EarlyDepthFunction::GreaterOrEqual),
            EarlyDepthFunction::spec_from_raw(1) == Some(EarlyDepthFunction::Greater),
            EarlyDepthFunction::spec_from_raw(2) == Some(EarlyDepthFunction::LessOrEqual),
            EarlyDepthFunction::spec_from_raw(3) == Some(EarlyDepthFunction::Less),
    {
    }

    /// The raw `GPU_EARLYDEPTHFUNC` value of this variant.
    pub fn raw(self) -> (r: u8)
        ensures
            r == self.spec_raw(),
    {
        match self {
            EarlyDepthFunction::GreaterOrEqual => 0,
            EarlyDepthFunction::Greater => 1,
            EarlyDepthFunction::LessOrEqual => 2,
            EarlyDepthFunction::Less => 3,
        }
    }

    /// Encoding a variant and decoding the result gives the variant back, and a
    /// raw value decodes only to the variant that encodes it.
    pub proof fn lemma_raw_round_trip(self, value: u8)
        ensures
            EarlyDepthFunction::spec_from_raw(self.spec_raw()) == Some(self),
            EarlyDepthFunction::spec_from_raw(value) matches Some(e) ==> e.spec_raw() == value,
            EarlyDepthFunction::spec_from_raw(value) is None ==> forall|e: EarlyDepthFunction| e.spec_raw() != value,
    {
    }
}

impl TryFrom<u8> for EarlyDepthFunction {
    type Error = String;

    fn try_from(value: u8) -> (r: Result<Self, String>)
        ensures
            match r {
                Ok(e) => EarlyDepthFunction::spec_from_raw(value) == Some(e),
                Err(s) => EarlyDepthFunction::spec_from_raw(value) is None && s@ == "Invalid value for EarlyDepthFunction"@,
            },
    {
        match value {
            0 => Ok(EarlyDepthFunction::GreaterOrEqual),
            1 => Ok(EarlyDepthFunction::Greater),
            2 => Ok(EarlyDepthFunction::LessOrEqual),
            3 => Ok(EarlyDepthFunction::Less),
            _ => Err("Invalid value for EarlyDepthFunction".to_string()),
        }
    }
}

impl vstd::std_specs::convert::TryFromSpecImpl<u8> for EarlyDepthFunction {
    open spec fn obeys_try_from_spec() -> bool {
        false
    }

    open spec fn try_from_spec(value: u8) -> Result<Self, String> {
        match EarlyDepthFunction::spec_from_raw(value) {
            Some(e) => Ok(e),
            None => Err(arbitrary()),
        }
    }
}

/// Gas depth functions.
#[derive(Clone, Copy, Debug, PartialEq, Eq)]
pub enum GasDepthFunction {
    /// Never pass (0).
    Never,
    /// Always pass (1).
    Always,
    /// Pass if greater than (1-X).
    Greater,
    /// Pass if less than (X).
    Less,
}

impl GasDepthFunction {
    /// The raw `GPU_GASDEPTHFUNC` value that encodes this variant.
    pub open spec fn spec_raw(self) -> u8 {
        match self {
            GasDepthFunction::Never => 0,
            GasDepthFunction::Always => 1,
            GasDepthFunction::Greater => 2,
            GasDepthFunction::Less => 3,
        }
    }

    /// The variant that the raw value `value` encodes, if any.
    pub open spec fn spec_from_raw(value: u8) -> Option<Self> {
        if value == 0 {
            Some(GasDepthFunction::Never)
        } else if value == 1 {
            Some(GasDepthFunction::Always)
        } else if value == 2 {
            Some(GasDepthFunction::Greater)
        } else if value == 3 {
            Some(GasDepthFunction::Less)
        } else {
            None
        }
    }

    /// Each variant encodes to the `GPU_GASDEPTHFUNC` value that the hardware defines for it, and each of these values decodes to that variant.
    pub proof fn lemma_raw_values()
        ensures
            GasDepthFunction::Never.spec_raw() == 0,
            GasDepthFunction::Always.spec_raw() == 1,
            GasDepthFunction::Greater.spec_raw() == 2,
            GasDepthFunction::Less.spec_raw() == 3,
            GasDepthFunction::spec_from_raw(0) == Some(GasDepthFunction::Never),
            GasDepthFunction::spec_from_raw(1) == Some(GasDepthFunction::Always),
            GasDepthFunction::spec_from_raw(2) == Some(GasDepthFunction::Greater),
            GasDepthFunction::spec_from_raw(3) == Some(GasDepthFunction::Less),
    {
    }

    /// The raw `GPU_GASDEPTHFUNC` value of this variant.
    pub fn raw(self) -> (r: u8)
        ensures
            r == self.spec_raw(),
    {
        match self {
            GasDepthFunction::Never => 0,
            GasDepthFunction::Always => 1,
            GasDepthFunction::Greater => 2,
            GasDepthFunction::Less => 3,
        }
    }

    /// Encoding a variant and decoding the result gives the variant back, and a
    /// raw value decodes only to the variant that encodes it.
    pub proof fn lemma_raw_round_trip(self, value: u8)
        ensures
            GasDepthFunction::spec_from_raw(self.spec_raw()) == Some(self),
            GasDepthFunction::spec_from_raw(value) matches Some(e) ==> e.spec_raw() == value,
            GasDepthFunction::spec_from_raw(value) is None ==> forall|e: GasDepthFunction| e.spec_raw() != value,
    {
    }
}

impl TryFrom<u8> for GasDepthFunction {
    type Error = String;

    fn try_from(value: u8) -> (r: Result<Self, String>)
        ensures
            match r {
                Ok(e) => GasDepthFunction::spec_from_raw(value) == Some(e),
                Err(s) => GasDepthFunction::spec_from_raw(value) is None && s@ == "Invalid value for GasDepthFunction"@,
            },
    {
        match value {
            0 => Ok(GasDepthFunction::Never),
            1 => Ok(GasDepthFunction::Always),
            2 => Ok(GasDepthFunction::Greater),
            3 => Ok(GasDepthFunction::Less),
            _ => Err("Invalid value for GasDepthFunction".to_string()),
        }
    }
}

impl vstd::std_specs::convert::TryFromSpecImpl<u8> for GasDepthFunction {
    open spec fn obeys_try_from_spec() -> bool {
        false
    }

    open spec fn try_from_spec(value: u8) -> Result<Self, String> {
        match GasDepthFunction::spec_from_raw(value) {
            Some(e) => Ok(e),
            None => Err(arbitrary()),
        }
    }
}

/// Scissor test modes.
#[derive(Clone, Copy, Debug, PartialEq, Eq)]
pub enum ScissorMode {
    /// Disable.
    Disable,
    /// Exclude pixels inside the scissor box.
    Invert,
    /// Exclude pixels outside of the scissor box.
    Normal,
}

impl ScissorMode {
    /// The raw `GPU_SCISSORMODE` value that encodes this variant.
    pub open spec fn spec_raw(self) -> u8 {
        match self {
            ScissorMode::Disable => 0,
            ScissorMode::Invert => 1,
            ScissorMode::Normal => 3,
        }
    }

    /// The variant that the raw value `value` encodes, if any.
    pub open spec fn spec_from_raw(value: u8) -> Option<Self> {
        if value == 0 {
            Some(ScissorMode::Disable)
        } else if value == 1 {
            Some(ScissorMode::Invert)
        } else if value == 3 {
            Some(ScissorMode::Normal)
        } else {
            None
        }
    }

    /// Each variant encodes to the `GPU_SCISSORMODE` value that the hardware defines for it, and each of these values decodes to that variant.
    pub proof fn lemma_raw_values()
        ensures
            ScissorMode::Disable.spec_raw() == 0,
            ScissorMode::Invert.spec_raw() == 1,
            ScissorMode::Normal.spec_raw() == 3,
            ScissorMode::spec_from_raw(0) == Some(ScissorMode::Disable),
            ScissorMode::spec_from_raw(1) == Some(ScissorMode::Invert),
            ScissorMode::spec_from_raw(3) == Some(ScissorMode::Normal),
    {
    }

    /// The raw `GPU_SCISSORMODE` value of this variant.
    pub fn raw(self) -> (r: u8)
        ensures
            r == self.spec_raw(),
    {
        match self {
            ScissorMode::Disable => 0,
            ScissorMode::Invert => 1,
            ScissorMode::Normal => 3,
        }
    }

    /// Encoding a variant and decoding the result gives the variant back, and a
    /// raw value decodes only to the variant that encodes it.
    pub proof fn lemma_raw_round_trip(self, value: u8)
        ensures
            ScissorMode::spec_from_raw(self.spec_raw()) == Some(self),
            ScissorMode::spec_from_raw(value) matches Some(e) ==> e.spec_raw() == value,
            ScissorMode::spec_from_raw(value) is None ==> forall|e: ScissorMode| e.spec_raw() != value,
    {
    }
}

impl TryFrom<u8> for ScissorMode {
    type Error = String;

    fn try_from(value: u8) -> (r: Result<Self, String>)
        ensures
            match r {
                Ok(e) => ScissorMode::spec_from_raw(value) == Some(e),
                Err(s) => ScissorMode::spec_from_raw(value) is None && s@ == "Invalid value for ScissorMode"@,
            },
    {
        match value {
            0 => Ok(ScissorMode::Disable),
            1 => Ok(ScissorMode::Invert),
            3 => Ok(ScissorMode::Normal),
            _ => Err("Invalid value for ScissorMode".to_string()),
        }
    }
}

impl vstd::std_specs::convert::TryFromSpecImpl<u8> for ScissorMode {
    open spec fn obeys_try_from_spec() -> bool {
        false
    }

    open spec fn try_from_spec(value: u8) -> Result<Self, String> {
        match ScissorMode::spec_from_raw(value) {
            Some(e) => Ok(e),
            None => Err(arbitrary()),
        }
    }
}

/// Stencil operations.
#[derive(Clone, Copy, Debug, PartialEq, Eq)]
pub enum StencilOperation {
    /// Keep old value. (old_stencil)
    Keep,
    /// Zero. (0)
    Zero,
    /// Replace value. (ref)
    Replace,
    /// Increment value. (old_stencil + 1 saturated to [0, 255])
    Increment,
    /// Decrement value. (old_stencil - 1 saturated to [0, 255])
    Decrement,
    /// Invert value. (~old_stencil)
    Invert,
    /// Increment value. (old_stencil + 1)
    IncrementWrap,
    /// Decrement value. (old_stencil - 1)
    DecrementWrap,
}

impl StencilOperation {
    /// The raw `GPU_STENCILOP` value that encodes this variant.
    pub open spec fn spec_raw(self) -> u8 {
        match self {
            StencilOperation::Keep => 0,
            StencilOperation::Zero => 1,
            StencilOperation::Replace => 2,
            StencilOperation::Increment => 3,
            StencilOperation::Decrement => 4,
            StencilOperation::Invert => 5,
            StencilOperation::IncrementWrap => 6,
            StencilOperation::DecrementWrap => 7,
        }
    }

    /// The variant that the raw value `value` encodes, if any.
    pub open spec fn spec_from_raw(value: u8) -> Option<Self> {
        if value == 0 {
            Some(StencilOperation::Keep)
        } else if value == 1 {
            Some(StencilOperation::Zero)
        } else if value == 2 {
            Some(StencilOperation::Replace)
        } else if value == 3 {
            Some(StencilOperation::Increment)
        } else if value == 4 {
            Some(StencilOperation::Decrement)
        } else if value == 5 {
            Some(StencilOperation::Invert)
        } else if value == 6 {
            Some(StencilOperation::IncrementWrap)
        } else if value == 7 {
            Some(StencilOperation::DecrementWrap)
        } else {
            None
        }
    }

    /// Each variant encodes to the `GPU_STENCILOP` value that the hardware defines for it, and each of these values decodes to that variant.
    pub proof fn lemma_raw_values()
        ensures
            StencilOperation::Keep.spec_raw() == 0,
            StencilOperation::Zero.spec_raw() == 1,
            StencilOperation::Replace.spec_raw() == 2,
            StencilOperation::Increment.spec_raw() == 3,
            StencilOperation::Decrement.spec_raw() == 4,
            StencilOperation::Invert.spec_raw() == 5,
            StencilOperation::IncrementWrap.spec_raw() == 6,
            StencilOperation::DecrementWrap.spec_raw() == 7,
            StencilOperation::spec_from_raw(0) == Some(StencilOperation::Keep),
            StencilOperation::spec_from_raw(1) == Some(StencilOperation::Zero),
            StencilOperation::spec_from_raw(2) == Some(StencilOperation::Replace),
            StencilOperation::spec_from_raw(3) == Some(StencilOperation::Increment),
            StencilOperation::spec_from_raw(4) == Some(StencilOperation::Decrement),
            StencilOperation::spec_from_raw(5) == Some(StencilOperation::Invert),
            StencilOperation::spec_from_raw(6) == Some(StencilOperation::IncrementWrap),
            StencilOperation::spec_from_raw(7) == Some(StencilOperation::DecrementWrap),
    {
    }

    /// The raw `GPU_STENCILOP` value of this variant.
    pub fn raw(self) -> (r: u8)
        ensures
            r == self.spec_raw(),
    {
        match self {
            StencilOperation::Keep => 0,
            StencilOperation::Zero => 1,
            StencilOperation::Replace => 2,
            StencilOperation::Increment => 3,
            StencilOperation::Decrement => 4,
            StencilOperation::Invert => 5,
            StencilOperation::IncrementWrap => 6,
            StencilOperation::DecrementWrap => 7,
        }
    }

    /// Encoding a variant and decoding the result gives the variant back, and a
    /// raw value decodes only to the variant that encodes it.
    pub proof fn lemma_raw_round_trip(self, value: u8)
        ensures
            StencilOperation::spec_from_raw(self.spec_raw()) == Some(self),
            StencilOperation::spec_from_raw(value) matches Some(e) ==> e.spec_raw() == value,
            StencilOperation::spec_from_raw(value) is None ==> forall|e: StencilOperation| e.spec_raw() != value,
    {
    }
}

impl TryFrom<u8> for StencilOperation {
    type Error = String;

    fn try_from(value: u8) -> (r: Result<Self, String>)
        ensures
            match r {
                Ok(e) => StencilOperation::spec_from_raw(value) == Some(e),
                Err(s) => StencilOperation::spec_from_raw(value) is None && s@ == "Invalid value for StencilOperation"@,
            },
    {
        match value {
            0 => Ok(StencilOperation::Keep),
            1 => Ok(StencilOperation::Zero),
            2 => Ok(StencilOperation::Replace),
            3 => Ok(StencilOperation::Increment),
            4 => Ok(StencilOperation::Decrement),
            5 => Ok(StencilOperation::Invert),
            6 => Ok(StencilOperation::IncrementWrap),
            7 => Ok(StencilOperation::DecrementWrap),
            _ => Err("Invalid value for StencilOperation".to_string()),
        }
    }
}

impl vstd::std_specs::convert::TryFromSpecImpl<u8> for StencilOperation {
    open spec fn obeys_try_from_spec() -> bool {
        false
    }

    open spec fn try_from_spec(value: u8) -> Result<Self, String> {
        match StencilOperation::spec_from_raw(value) {
            Some(e) => Ok(e),
            None => Err(arbitrary()),
        }
    }
}

/// Pixel write mask.
#[derive(Clone, Copy, Debug, PartialEq, Eq)]
pub enum WriteMask {
    /// Write red.
    Red,
    /// Write green.
    Green,
    /// Write blue.
    Blue,
    /// Write alpha.
    Alpha,
    /// Write depth.
    Depth,
    /// Write all color components.
    Color,
    /// Write all components.
    All,
}

impl WriteMask {
    /// The raw `GPU_WRITEMASK` value that encodes this variant.
    pub open spec fn spec_raw(self) -> u8 {
        match self {
            WriteMask::Red => 0x01,
            WriteMask::Green => 0x02,
            WriteMask::Blue => 0x04,
            WriteMask::Alpha => 0x08,
            WriteMask::Depth => 0x10,
            WriteMask::Color => 0x0F,
            WriteMask::All => 0x1F,
        }
    }

    /// The variant that the raw value `value` encodes, if any.
    pub open spec fn spec_from_raw(value: u8) -> Option<Self> {
        if value == 0x01 {
            Some(WriteMask::Red)
        } else if value == 0x02 {
            Some(WriteMask::Green)
        } else if value == 0x04 {
            Some(WriteMask::Blue)
        } else if value == 0x08 {
            Some(WriteMask::Alpha)
        } else if value == 0x10 {
            Some(WriteMask::Depth)
        } else if value == 0x0F {
            Some(WriteMask::Color)
        } else if value == 0x1F {
            Some(WriteMask::All)
        } else {
            None
        }
    }

    /// Each variant encodes to the `GPU_WRITEMASK` value that the hardware defines for it, and each of these values decodes to that variant.
    pub proof fn lemma_raw_values()
        ensures
            WriteMask::Red.spec_raw() == 0x01,
            WriteMask::Green.spec_raw() == 0x02,
            WriteMask::Blue.spec_raw() == 0x04,
            WriteMask::Alpha.spec_raw() == 0x08,
            WriteMask::Depth.spec_raw() == 0x10,
            WriteMask::Color.spec_raw() == 0x0F,
            WriteMask::All.spec_raw() == 0x1F,
            WriteMask::spec_from_raw(0x01) == Some(WriteMask::Red),
            WriteMask::spec_from_raw(0x02) == Some(WriteMask::Green),
            WriteMask::spec_from_raw(0x04) == Some(WriteMask::Blue),
            WriteMask::spec_from_raw(0x08) == Some(WriteMask::Alpha),
            WriteMask::spec_from_raw(0x10) == Some(WriteMask::Depth),
            WriteMask::spec_from_raw(0x0F) == Some(WriteMask::Color),
            WriteMask::spec_from_raw(0x1F) == Some(WriteMask::All),
    {
    }

    /// The raw `GPU_WRITEMASK` value of this variant.
    pub fn raw(self) -> (r: u8)
        ensures
            r == self.spec_raw(),
    {
        match self {
            WriteMask::Red => 0x01,
            WriteMask::Green => 0x02,
            WriteMask::Blue => 0x04,
            WriteMask::Alpha => 0x08,
            WriteMask::Depth => 0x10,
            WriteMask::Color => 0x0F,
            WriteMask::All => 0x1F,
        }
    }

    /// Encoding a variant and decoding the result gives the variant back, and a
    /// raw value decodes only to the variant that encodes it.
    pub proof fn lemma_raw_round_trip(self, value: u8)
        ensures
            WriteMask::spec_from_raw(self.spec_raw()) == Some(self),
            WriteMask::spec_from_raw(value) matches Some(e) ==> e.spec_raw() == value,
            WriteMask::spec_from_raw(value) is None ==> forall|e: WriteMask| e.spec_raw() != value,
    {
    }
}

impl TryFrom<u8> for WriteMask {
    type Error = String;

    fn try_from(value: u8) -> (r: Result<Self, String>)
        ensures
            match r {
                Ok(e) => WriteMask::spec_from_raw(value) == Some(e),
                Err(s) => WriteMask::spec_from_raw(value) is None && s@ == "Invalid value for WriteMask"@,
            },
    {
        match value {
            0x01 => Ok(WriteMask::Red),
            0x02 => Ok(WriteMask::Green),
            0x04 => Ok(WriteMask::Blue),
            0x08 => Ok(WriteMask::Alpha),
            0x10 => Ok(WriteMask::Depth),
            0x0F => Ok(WriteMask::Color),
            0x1F => Ok(WriteMask::All),
            _ => Err("Invalid value for WriteMask".to_string()),
        }
    }
}

impl vstd::std_specs::convert::TryFromSpecImpl<u8> for WriteMask {
    open spec fn obeys_try_from_spec() -> bool {
        false
    }

    open spec fn try_from_spec(value: u8) -> Result<Self, String> {
        match WriteMask::spec_from_raw(value) {
            Some(e) => Ok(e),
            None => Err(arbitrary()),
        }
    }
}

/// Blend modes.
#[derive(Clone, Copy, Debug, PartialEq, Eq)]
pub enum BlendEquation {
    /// Add colors.
    Add,
    /// Subtract colors.
    Subtract,
    /// Reverse-subtract colors.
    ReverseSubtract,
    /// Use the minimum color.
    Min,
    /// Use the maximum color.
    Max,
}

impl BlendEquation {
    /// The raw `GPU_BLENDEQUATION` value that encodes this variant.
    pub open spec fn spec_raw(self) -> u8 {
        match self {
            BlendEquation::Add => 0,
            BlendEquation::Subtract => 1,
            BlendEquation::ReverseSubtract => 2,
            BlendEquation::Min => 3,
            BlendEquation::Max => 4,
        }
    }

    /// The variant that the raw value `value` encodes, if any.
    pub open spec fn spec_from_raw(value: u8) -> Option<Self> {
        if value == 0 {
            Some(BlendEquation::Add)
        } else if value == 1 {
            Some(BlendEquation::Subtract)
        } else if value == 2 {
            Some(BlendEquation::ReverseSubtract)
        } else if value == 3 {
            Some(BlendEquation::Min)
        } else if value == 4 {
            Some(BlendEquation::Max)
        } else {
            None
        }
    }

    /// Each variant encodes to the `GPU_BLENDEQUATION` value that the hardware defines for it, and each of these values decodes to that variant.
    pub proof fn lemma_raw_values()
        ensures
            BlendEquation::Add.spec_raw() == 0,
            BlendEquation::Subtract.spec_raw() == 1,
            BlendEquation::ReverseSubtract.spec_raw() == 2,
            BlendEquation::Min.spec_raw() == 3,
            BlendEquation::Max.spec_raw() == 4,
            BlendEquation::spec_from_raw(0) == Some(BlendEquation::Add),
            BlendEquation::spec_from_raw(1) == Some(BlendEquation::Subtract),
            BlendEquation::spec_from_raw(2) == Some(BlendEquation::ReverseSubtract),
            BlendEquation::spec_from_raw(3) == Some(BlendEquation::Min),
            BlendEquation::spec_from_raw(4) == Some(BlendEquation::Max),
    {
    }

    /// The raw `GPU_BLENDEQUATION` value of this variant.
    pub fn raw(self) -> (r: u8)
        ensures
            r == self.spec_raw(),
    {
        match self {
            BlendEquation::Add => 0,
            BlendEquation::Subtract => 1,
            BlendEquation::ReverseSubtract => 2,
            BlendEquation::Min => 3,
            BlendEquation::Max => 4,
        }
    }

    /// Encoding a variant and decoding the result gives the variant back, and a
    /// raw value decodes only to the variant that encodes it.
    pub proof fn lemma_raw_round_trip(self, value: u8)
        ensures
            BlendEquation::spec_from_raw(self.spec_raw()) == Some(self),
            BlendEquation::spec_from_raw(value) matches Some(e) ==> e.spec_raw() == value,
            BlendEquation::spec_from_raw(value) is None ==> forall|e: BlendEquation| e.spec_raw() != value,
    {
    }
}

impl TryFrom<u8> for BlendEquation {
    type Error = String;

    fn try_from(value: u8) -> (r: Result<Self, String>)
        ensures
            match r {
                Ok(e) => BlendEquation::spec_from_raw(value) == Some(e),
                Err(s) => BlendEquation::spec_from_raw(value) is None && s@ == "Invalid value for BlendEquation"@,
            },
    {
        match value {
            0 => Ok(BlendEquation::Add),
            1 => Ok(BlendEquation::Subtract),
            2 => Ok(BlendEquation::ReverseSubtract),
            3 => Ok(BlendEquation::Min),
            4 => Ok(BlendEquation::Max),
            _ => Err("Invalid value for BlendEquation".to_string()),
        }
    }
}

impl vstd::std_specs::convert::TryFromSpecImpl<u8> for BlendEquation {
    open spec fn obeys_try_from_spec() -> bool {
        false
    }

    open spec fn try_from_spec(value: u8) -> Result<Self, String> {
        match BlendEquation::spec_from_raw(value) {
            Some(e) => Ok(e),
            None => Err(arbitrary()),
        }
    }
}

/// Blend factors.
#[derive(Clone, Copy, Debug, PartialEq, Eq)]
pub enum BlendFactor {
    /// Zero.
    Zero,
    /// One.
    One,
    /// Source color.
    SrcColor,
    /// Source color - 1.
    OneMinusSrcColor,
    /// Destination color.
    DstColor,
    /// Destination color - 1.
    OneMinusDstColor,
    /// Source alpha.
    SrcAlpha,
    /// Source alpha - 1.
    OneMinusSrcAlpha,
    /// Destination alpha.
    DstAlpha,
    /// Destination alpha - 1.
    OneMinusDstAlpha,
    /// Constant color.
    ConstantColor,
    /// Constant color - 1.
    OneMinusConstantColor,
    /// Constant alpha.
    ConstantAlpha,
    /// Constant alpha - 1.
    OneMinusConstantAlpha,
    /// Saturated alpha.
    SrcAlphaSaturate,
}

impl BlendFactor {
    /// The raw `GPU_BLENDFACTOR` value that encodes this variant.
    pub open spec fn spec_raw(self) -> u8 {
        match self {
            BlendFactor::Zero => 0,
            BlendFactor::One => 1,
            BlendFactor::SrcColor => 2,
            BlendFactor::OneMinusSrcColor => 3,
            BlendFactor::DstColor => 4,
            BlendFactor::OneMinusDstColor => 5,
            BlendFactor::SrcAlpha => 6,
            BlendFactor::OneMinusSrcAlpha => 7,
            BlendFactor::DstAlpha => 8,
            BlendFactor::OneMinusDstAlpha => 9,
            BlendFactor::ConstantColor => 10,
            BlendFactor::OneMinusConstantColor => 11,
            BlendFactor::ConstantAlpha => 12,
            BlendFactor::OneMinusConstantAlpha => 13,
            BlendFactor::SrcAlphaSaturate => 14,
        }
    }

    /// The variant that the raw value `value` encodes, if any.
    pub open spec fn spec_from_raw(value: u8) -> Option<Self> {
        if value == 0 {
            Some(BlendFactor::Zero)
        } else if value == 1 {
            Some(BlendFactor::One)
        } else if value == 2 {
            Some(BlendFactor::SrcColor)
        } else if value == 3 {
            Some(BlendFactor::OneMinusSrcColor)
        } else if value == 4 {
            Some(BlendFactor::DstColor)
        } else if value == 5 {
            Some(BlendFactor::OneMinusDstColor)
        } else if value == 6 {
            Some(BlendFactor::SrcAlpha)
        } else if value == 7 {
            Some(BlendFactor::OneMinusSrcAlpha)
        } else if value == 8 {
            Some(BlendFactor::DstAlpha)
        } else if value == 9 {
            Some(BlendFactor::OneMinusDstAlpha)
        } else if value == 10 {
            Some(BlendFactor::ConstantColor)
        } else if value == 11 {
            Some(BlendFactor::OneMinusConstantColor)
        } else if value == 12 {
            Some(BlendFactor::ConstantAlpha)
        } else if value == 13 {
            Some(BlendFactor::OneMinusConstantAlpha)
        } else if value == 14 {
            Some(BlendFactor::SrcAlphaSaturate)
        } else {
            None
        }
    }

    /// Each variant encodes to the `GPU_BLENDFACTOR` value that the hardware defines for it, and each of these values decodes to that variant.
    pub proof fn lemma_raw_values()
        ensures
            BlendFactor::Zero.spec_raw() == 0,
            BlendFactor::One.spec_raw() == 1,
            BlendFactor::SrcColor.spec_raw() == 2,
            BlendFactor::OneMinusSrcColor.spec_raw() == 3,
            BlendFactor::DstColor.spec_raw() == 4,
            BlendFactor::OneMinusDstColor.spec_raw() == 5,
            BlendFactor::SrcAlpha.spec_raw() == 6,
            BlendFactor::OneMinusSrcAlpha.spec_raw() == 7,
            BlendFactor::DstAlpha.spec_raw() == 8,
            BlendFactor::OneMinusDstAlpha.spec_raw() == 9,
            BlendFactor::ConstantColor.spec_raw() == 10,
            BlendFactor::OneMinusConstantColor.spec_raw() == 11,
            BlendFactor::ConstantAlpha.spec_raw() == 12,
            BlendFactor::OneMinusConstantAlpha.spec_raw() == 13,
            BlendFactor::SrcAlphaSaturate.spec_raw() == 14,
            BlendFactor::spec_from_raw(0) == Some(BlendFactor::Zero),
            BlendFactor::spec_from_raw(1) == Some(BlendFactor::One),
            BlendFactor::spec_from_raw(2) == Some(BlendFactor::SrcColor),
            BlendFactor::spec_from_raw(3) == Some(BlendFactor::OneMinusSrcColor),
            BlendFactor::spec_from_raw(4) == Some(BlendFactor::DstColor),
            BlendFactor::spec_from_raw(5) == Some(BlendFactor::OneMinusDstColor),
            BlendFactor::spec_from_raw(6) == Some(BlendFactor::SrcAlpha),
            BlendFactor::spec_from_raw(7) == Some(BlendFactor::OneMinusSrcAlpha),
            BlendFactor::spec_from_raw(8) == Some(BlendFactor::DstAlpha),
            BlendFactor::spec_from_raw(9) == Some(BlendFactor::OneMinusDstAlpha),
            BlendFactor::spec_from_raw(10) == Some(BlendFactor::ConstantColor),
            BlendFactor::spec_from_raw(11) == Some(BlendFactor::OneMinusConstantColor),
            BlendFactor::spec_from_raw(12) == Some(BlendFactor::ConstantAlpha),
            BlendFactor::spec_from_raw(13) == Some(BlendFactor::OneMinusConstantAlpha),
            BlendFactor::spec_from_raw(14) == Some(BlendFactor::SrcAlphaSaturate),
    {
    }

    /// The raw `GPU_BLENDFACTOR` value of this variant.
    pub fn raw(self) -> (r: u8)
        ensures
            r == self.spec_raw(),
    {
        match self {
            BlendFactor::Zero => 0,
            BlendFactor::One => 1,
            BlendFactor::SrcColor => 2,
            BlendFactor::OneMinusSrcColor => 3,
            BlendFactor::DstColor => 4,
            BlendFactor::OneMinusDstColor => 5,
            BlendFactor::SrcAlpha => 6,
            BlendFactor::OneMinusSrcAlpha => 7,
            BlendFactor::DstAlpha => 8,
            BlendFactor::OneMinusDstAlpha => 9,
            BlendFactor::ConstantColor => 10,
            BlendFactor::OneMinusConstantColor => 11,
            BlendFactor::ConstantAlpha => 12,
            BlendFactor::OneMinusConstantAlpha => 13,
            BlendFactor::SrcAlphaSaturate => 14,
        }
    }

    /// Encoding a variant and decoding the result gives the variant back, and a
    /// raw value decodes only to the variant that encodes it.
    pub proof fn lemma_raw_round_trip(self, value: u8)
        ensures
            BlendFactor::spec_from_raw(self.spec_raw()) == Some(self),
            BlendFactor::spec_from_raw(value) matches Some(e) ==> e.spec_raw() == value,
            BlendFactor::spec_from_raw(value) is None ==> forall|e: BlendFactor| e.spec_raw() != value,
    {
    }
}

impl TryFrom<u8> for BlendFactor {
    type Error = String;

    fn try_from(value: u8) -> (r: Result<Self, String>)
        ensures
            match r {
                Ok(e) => BlendFactor::spec_from_raw(value) == Some(e),
                Err(s) => BlendFactor::spec_from_raw(value) is None && s@ == "Invalid value for BlendFactor"@,
            },
    {
        match value {
            0 => Ok(BlendFactor::Zero),
            1 => Ok(BlendFactor::One),
            2 => Ok(BlendFactor::SrcColor),
            3 => Ok(BlendFactor::OneMinusSrcColor),
            4 => Ok(BlendFactor::DstColor),
            5 => Ok(BlendFactor::OneMinusDstColor),
            6 => Ok(BlendFactor::SrcAlpha),
            7 => Ok(BlendFactor::OneMinusSrcAlpha),
            8 => Ok(BlendFactor::DstAlpha),
            9 => Ok(BlendFactor::OneMinusDstAlpha),
            10 => Ok(BlendFactor::ConstantColor),
            11 => Ok(BlendFactor::OneMinusConstantColor),
            12 => Ok(BlendFactor::ConstantAlpha),
            13 => Ok(BlendFactor::OneMinusConstantAlpha),
            14 => Ok(BlendFactor::SrcAlphaSaturate),
            _ => Err("Invalid value for BlendFactor".to_string()),
        }
    }
}

impl vstd::std_specs::convert::TryFromSpecImpl<u8> for BlendFactor {
    open spec fn obeys_try_from_spec() -> bool {
        false
    }

    open spec fn try_from_spec(value: u8) -> Result<Self, String> {
        match BlendFactor::spec_from_raw(value) {
            Some(e) => Ok(e),
            None => Err(arbitrary()),
        }
    }
}

/// Logical operations.
#[derive(Clone, Copy, Debug, PartialEq, Eq)]
pub enum LogicOperation {
    /// Clear.
    Clear,
    /// Bitwise AND.
    And,
    /// Reverse bitwise AND.
    AndReverse,
    /// Copy.
    Copy,
    /// Set.
    SetAll,
    /// Inverted copy.
    CopyInverted,
    /// No operation.
    Noop,
    /// Invert.
    Invert,
    /// Bitwise NAND.
    Nand,
    /// Bitwise OR.
    Or,
    /// Bitwise NOR.
    Nor,
    /// Bitwise XOR.
    Xor,
    /// Equivalent.
    Equiv,
    /// Inverted bitwise AND.
    AndInverted,
    /// Reverse bitwise OR.
    OrReverse,
    /// Inverted bitwise OR.
    OrInverted,
}

impl LogicOperation {
    /// The raw `GPU_LOGICOP` value that encodes this variant.
    pub open spec fn spec_raw(self) -> u8 {
        match self {
            LogicOperation::Clear => 0,
            LogicOperation::And => 1,
            LogicOperation::AndReverse => 2,
            LogicOperation::Copy => 3,
            LogicOperation::SetAll => 4,
            LogicOperation::CopyInverted => 5,
            LogicOperation::Noop => 6,
            LogicOperation::Invert => 7,
            LogicOperation::Nand => 8,
            LogicOperation::Or => 9,
            LogicOperation::Nor => 10,
            LogicOperation::Xor => 11,
            LogicOperation::Equiv => 12,
            LogicOperation::AndInverted => 13,
            LogicOperation::OrReverse => 14,
            LogicOperation::OrInverted => 15,
        }
    }

    /// The variant that the raw value `value` encodes, if any.
    pub open spec fn spec_from_raw(value: u8) -> Option<Self> {
        if value == 0 {
            Some(LogicOperation::Clear)
        } else if value == 1 {
            Some(LogicOperation::And)
        } else if value == 2 {
            Some(LogicOperation::AndReverse)
        } else if value == 3 {
            Some(LogicOperation::Copy)
        } else if value == 4 {
            Some(LogicOperation::SetAll)
        } else if value == 5 {
            Some(LogicOperation::CopyInverted)
        } else if value == 6 {
            Some(LogicOperation::Noop)
        } else if value == 7 {
            Some(LogicOperation::Invert)
        } else if value == 8 {
            Some(LogicOperation::Nand)
        } else if value == 9 {
            Some(LogicOperation::Or)
        } else if value == 10 {
            Some(LogicOperation::Nor)
        } else if value == 11 {
            Some(LogicOperation::Xor)
        } else if value == 12 {
            Some(LogicOperation::Equiv)
        } else if value == 13 {
            Some(LogicOperation::AndInverted)
        } else if value == 14 {
            Some(LogicOperation::OrReverse)
        } else if value == 15 {
            Some(LogicOperation::OrInverted)
        } else {
            None
        }
    }

    /// Each variant encodes to the `GPU_LOGICOP` value that the hardware defines for it, and each of these values decodes to that variant.
    pub proof fn lemma_raw_values()
        ensures
            LogicOperation::Clear.spec_raw() == 0,
            LogicOperation::And.spec_raw() == 1,
            LogicOperation::AndReverse.spec_raw() == 2,
            LogicOperation::Copy.spec_raw() == 3,
            LogicOperation::SetAll.spec_raw() == 4,
            LogicOperation::CopyInverted.spec_raw() == 5,
            LogicOperation::Noop.spec_raw() == 6,
            LogicOperation::Invert.spec_raw() == 7,
            LogicOperation::Nand.spec_raw() == 8,
            LogicOperation::Or.spec_raw() == 9,
            LogicOperation::Nor.spec_raw() == 10,
            LogicOperation::Xor.spec_raw() == 11,
            LogicOperation::Equiv.spec_raw() == 12,
            LogicOperation::AndInverted.spec_raw() == 13,
            LogicOperation::OrReverse.spec_raw() == 14,
            LogicOperation::OrInverted.spec_raw() == 15,
            LogicOperation::spec_from_raw(0) == Some(LogicOperation::Clear),
            LogicOperation::spec_from_raw(1) == Some(LogicOperation::And),
            LogicOperation::spec_from_raw(2) == Some(LogicOperation::AndReverse),
            LogicOperation::spec_from_raw(3) == Some(LogicOperation::Copy),
            LogicOperation::spec_from_raw(4) == Some(LogicOperation::SetAll),
            LogicOperation::spec_from_raw(5) == Some(LogicOperation::CopyInverted),
            LogicOperation::spec_from_raw(6) == Some(LogicOperation::Noop),
            LogicOperation::spec_from_raw(7) == Some(LogicOperation::Invert),
            LogicOperation::spec_from_raw(8) == Some(LogicOperation::Nand),
            LogicOperation::spec_from_raw(9) == Some(LogicOperation::Or),
            LogicOperation::spec_from_raw(10) == Some(LogicOperation::Nor),
            LogicOperation::spec_from_raw(11) == Some(LogicOperation::Xor),
            LogicOperation::spec_from_raw(12) == Some(LogicOperation::Equiv),
            LogicOperation::spec_from_raw(13) == Some(LogicOperation::AndInverted),
            LogicOperation::spec_from_raw(14) == Some(LogicOperation::OrReverse),
            LogicOperation::spec_from_raw(15) == Some(LogicOperation::OrInverted),
    {
    }

    /// The raw `GPU_LOGICOP` value of this variant.
    pub fn raw(self) -> (r: u8)
        ensures
            r == self.spec_raw(),
    {
        match self {
            LogicOperation::Clear => 0,
            LogicOperation::And => 1,
            LogicOperation::AndReverse => 2,
            LogicOperation::Copy => 3,
            LogicOperation::SetAll => 4,
            LogicOperation::CopyInverted => 5,
            LogicOperation::Noop => 6,
            LogicOperation::Invert => 7,
            LogicOperation::Nand => 8,
            LogicOperation::Or => 9,
            LogicOperation::Nor => 10,
            LogicOperation::Xor => 11,
            LogicOperation::Equiv => 12,
            LogicOperation::AndInverted => 13,
            LogicOperation::OrReverse => 14,
            LogicOperation::OrInverted => 15,
        }
    }

    /// Encoding a variant and decoding the result gives the variant back, and a
    /// raw value decodes only to the variant that encodes it.
    pub proof fn lemma_raw_round_trip(self, value: u8)
        ensures
            LogicOperation::spec_from_raw(self.spec_raw()) == Some(self),
            LogicOperation::spec_from_raw(value) matches Some(e) ==> e.spec_raw() == value,
            LogicOperation::spec_from_raw(value) is None ==> forall|e: LogicOperation| e.spec_raw() != value,
    {
    }
}

impl TryFrom<u8> for LogicOperation {
    type Error = String;

    fn try_from(value: u8) -> (r: Result<Self, String>)
        ensures
            match r {
                Ok(e) => LogicOperation::spec_from_raw(value) == Some(e),
                Err(s) => LogicOperation::spec_from_raw(value) is None && s@ == "Invalid value for LogicOperation"@,
            },
    {
        match value {
            0 => Ok(LogicOperation::Clear),
            1 => Ok(LogicOperation::And),
            2 => Ok(LogicOperation::AndReverse),
            3 => Ok(LogicOperation::Copy),
            4 => Ok(LogicOperation::SetAll),
            5 => Ok(LogicOperation::CopyInverted),
            6 => Ok(LogicOperation::Noop),
            7 => Ok(LogicOperation::Invert),
            8 => Ok(LogicOperation::Nand),
            9 => Ok(LogicOperation::Or),
            10 => Ok(LogicOperation::Nor),
            11 => Ok(LogicOperation::Xor),
            12 => Ok(LogicOperation::Equiv),
            13 => Ok(LogicOperation::AndInverted),
            14 => Ok(LogicOperation::OrReverse),
            15 => Ok(LogicOperation::OrInverted),
            _ => Err("Invalid value for LogicOperation".to_string()),
        }
    }
}

impl vstd::std_specs::convert::TryFromSpecImpl<u8> for LogicOperation {
    open spec fn obeys_try_from_spec() -> bool {
        false
    }

    open spec fn try_from_spec(value: u8) -> Result<Self, String> {
        match LogicOperation::spec_from_raw(value) {
            Some(e) => Ok(e),
            None => Err(arbitrary()),
        }
    }
}

/// Fragment operation modes.
#[derive(Clone, Copy, Debug, PartialEq, Eq)]
pub enum FragmentOperationMode {
    /// OpenGL mode.
    Gl,
    /// Gas mode (?).
    GasAcc,
    /// Shadow mode (?).
    Shadow,
}

impl FragmentOperationMode {
    /// The raw `GPU_FRAGOPMODE` value that encodes this variant.
    pub open spec fn spec_raw(self) -> u8 {
        match self {
            FragmentOperationMode::Gl => 0,
            FragmentOperationMode::GasAcc => 1,
            FragmentOperationMode::Shadow => 3,
        }
    }

    /// The variant that the raw value `value` encodes, if any.
    pub open spec fn spec_from_raw(value: u8) -> Option<Self> {
        if value == 0 {
            Some(FragmentOperationMode::Gl)
        } else if value == 1 {
            Some(FragmentOperationMode::GasAcc)
        } else if value == 3 {
            Some(FragmentOperationMode::Shadow)
        } else {
            None
        }
    }

    /// Each variant encodes to the `GPU_FRAGOPMODE` value that the hardware defines for it, and each of these values decodes to that variant.
    pub proof fn lemma_raw_values()
        ensures
            FragmentOperationMode::Gl.spec_raw() == 0,
            FragmentOperationMode::GasAcc.spec_raw() == 1,
            FragmentOperationMode::Shadow.spec_raw() == 3,
            FragmentOperationMode::spec_from_raw(0) == Some(FragmentOperationMode::Gl),
            FragmentOperationMode::spec_from_raw(1) == Some(FragmentOperationMode::GasAcc),
            FragmentOperationMode::spec_from_raw(3) == Some(FragmentOperationMode::Shadow),
    {
    }

    /// The raw `GPU_FRAGOPMODE` value of this variant.
    pub fn raw(self) -> (r: u8)
        ensures
            r == self.spec_raw(),
    {
        match self {
            FragmentOperationMode::Gl => 0,
            FragmentOperationMode::GasAcc => 1,
            FragmentOperationMode::Shadow => 3,
        }
    }

    /// Encoding a variant and decoding the result gives the variant back, and a
    /// raw value decodes only to the variant that encodes it.
    pub proof fn lemma_raw_round_trip(self, value: u8)
        ensures
            FragmentOperationMode::spec_from_raw(self.spec_raw()) == Some(self),
            FragmentOperationMode::spec_from_raw(value) matches Some(e) ==> e.spec_raw() == value,
            FragmentOperationMode::spec_from_raw(value) is None ==> forall|e: FragmentOperationMode| e.spec_raw() != value,
    {
    }
}

impl TryFrom<u8> for FragmentOperationMode {
    type Error = String;

    fn try_from(value: u8) -> (r: Result<Self, String>)
        ensures
            match r {
                Ok(e) => FragmentOperationMode::spec_from_raw(value) == Some(e),
                Err(s) => FragmentOperationMode::spec_from_raw(value) is None && s@ == "Invalid value for FragmentOperationMode"@,
            },
    {
        match value {
            0 => Ok(FragmentOperationMode::Gl),
            1 => Ok(FragmentOperationMode::GasAcc),
            3 => Ok(FragmentOperationMode::Shadow),
            _ => Err("Invalid value for FragmentOperationMode".to_string()),
        }
    }
}

impl vstd::std_specs::convert::TryFromSpecImpl<u8> for FragmentOperationMode {
    open spec fn obeys_try_from_spec() -> bool {
        false
    }

    open spec fn try_from_spec(value: u8) -> Result<Self, String> {
        match FragmentOperationMode::spec_from_raw(value) {
            Some(e) => Ok(e),
            None => Err(arbitrary()),
        }
    }
}

/// Cull modes.
#[derive(Clone, Copy, Debug, PartialEq, Eq)]
pub enum CullMode {
    /// Disabled.
    NoCull,
    /// Front, counter-clockwise.
    FrontCounterClockwise,
    /// Back, counter-clockwise.
    BackCounterClockwise,
}

impl CullMode {
    /// The raw `GPU_CULLMODE` value that encodes this variant.
    pub open spec fn spec_raw(self) -> u8 {
        match self {
            CullMode::NoCull => 0,
            CullMode::FrontCounterClockwise => 1,
            CullMode::BackCounterClockwise => 2,
        }
    }

    /// The variant that the raw value `value` encodes, if any.
    pub open spec fn spec_from_raw(value: u8) -> Option<Self> {
        if value == 0 {
            Some(CullMode::NoCull)
        } else if value == 1 {
            Some(CullMode::FrontCounterClockwise)
        } else if value == 2 {
            Some(CullMode::BackCounterClockwise)
        } else {
            None
        }
    }

    /// Each variant encodes to the `GPU_CULLMODE` value that the hardware defines for it, and each of these values decodes to that variant.
    pub proof fn lemma_raw_values()
        ensures
            CullMode::NoCull.spec_raw() == 0,
            CullMode::FrontCounterClockwise.spec_raw() == 1,
            CullMode::BackCounterClockwise.spec_raw() == 2,
            CullMode::spec_from_raw(0) == Some(CullMode::NoCull),
            CullMode::spec_from_raw(1) == Some(CullMode::FrontCounterClockwise),
            CullMode::spec_from_raw(2) == Some(CullMode::BackCounterClockwise),
    {
    }

    /// The raw `GPU_CULLMODE` value of this variant.
    pub fn raw(self) -> (r: u8)
        ensures
            r == self.spec_raw(),
    {
        match self {
            CullMode::NoCull => 0,
            CullMode::FrontCounterClockwise => 1,
            CullMode::BackCounterClockwise => 2,
        }
    }

    /// Encoding a variant and decoding the result gives the variant back, and a
    /// raw value decodes only to the variant that encodes it.
    pub proof fn lemma_raw_round_trip(self, value: u8)
        ensures
            CullMode::spec_from_raw(self.spec_raw()) == Some(self),
            CullMode::spec_from_raw(value) matches Some(e) ==> e.spec_raw() == value,
            CullMode::spec_from_raw(value) is None ==> forall|e: CullMode| e.spec_raw() != value,
    {
    }
}

impl TryFrom<u8> for CullMode {
    type Error = String;

    fn try_from(value: u8) -> (r: Result<Self, String>)
        ensures
            match r {
                Ok(e) => CullMode::spec_from_raw(value) == Some(e),
                Err(s) => CullMode::spec_from_raw(value) is None && s@ == "Invalid value for CullMode"@,
            },
    {
        match value {
            0 => Ok(CullMode::NoCull),
            1 => Ok(CullMode::FrontCounterClockwise),
            2 => Ok(CullMode::BackCounterClockwise),
            _ => Err("Invalid value for CullMode".to_string()),
        }
    }
}

impl vstd::std_specs::convert::TryFromSpecImpl<u8> for CullMode {
    open spec fn obeys_try_from_spec() -> bool {
        false
    }

    open spec fn try_from_spec(value: u8) -> Result<Self, String> {
        match CullMode::spec_from_raw(value) {
            Some(e) => Ok(e),
            None => Err(arbitrary()),
        }
    }
}

/// Fresnel selectors.
#[derive(Clone, Copy, Debug, PartialEq, Eq)]
pub enum FresnelSel {
    /// None.
    NoFresnel,
    /// Primary alpha.
    PrimaryAlpha,
    /// Secondary alpha.
    SecondaryAlpha,
    /// Primary and secondary alpha.
    PrimarySecondaryAlpha,
}

impl FresnelSel {
    /// The raw `GPU_FRESNELSEL` value that encodes this variant.
    pub open spec fn spec_raw(self) -> u8 {
        match self {
            FresnelSel::NoFresnel => 0,
            FresnelSel::PrimaryAlpha => 1,
            FresnelSel::SecondaryAlpha => 2,
            FresnelSel::PrimarySecondaryAlpha => 3,
        }
    }

    /// The variant that the raw value `value` encodes, if any.
    pub open spec fn spec_from_raw(value: u8) -> Option<Self> {
        if value == 0 {
            Some(FresnelSel::NoFresnel)
        } else if value == 1 {
            Some(FresnelSel::PrimaryAlpha)
        } else if value == 2 {
            Some(FresnelSel::SecondaryAlpha)
        } else if value == 3 {
            Some(FresnelSel::PrimarySecondaryAlpha)
        } else {
            None
        }
    }

    /// Each variant encodes to the `GPU_FRESNELSEL` value that the hardware defines for it, and each of these values decodes to that variant.
    pub proof fn lemma_raw_values()
        ensures
            FresnelSel::NoFresnel.spec_raw() == 0,
            FresnelSel::PrimaryAlpha.spec_raw() == 1,
            FresnelSel::SecondaryAlpha.spec_raw() == 2,
            FresnelSel::PrimarySecondaryAlpha.spec_raw() == 3,
            FresnelSel::spec_from_raw(0) == Some(FresnelSel::NoFresnel),
            FresnelSel::spec_from_raw(1) == Some(FresnelSel::PrimaryAlpha),
            FresnelSel::spec_from_raw(2) == Some(FresnelSel::SecondaryAlpha),
            FresnelSel::spec_from_raw(3) == Some(FresnelSel::PrimarySecondaryAlpha),
    {
    }

    /// The raw `GPU_FRESNELSEL` value of this variant.
    pub fn raw(self) -> (r: u8)
        ensures
            r == self.spec_raw(),
    {
        match self {
            FresnelSel::NoFresnel => 0,
            FresnelSel::PrimaryAlpha => 1,
            FresnelSel::SecondaryAlpha => 2,
            FresnelSel::PrimarySecondaryAlpha => 3,
        }
    }

    /// Encoding a variant and decoding the result gives the variant back, and a
    /// raw value decodes only to the variant that encodes it.
    pub proof fn lemma_raw_round_trip(self, value: u8)
        ensures
            FresnelSel::spec_from_raw(self.spec_raw()) == Some(self),
            FresnelSel::spec_from_raw(value) matches Some(e) ==> e.spec_raw() == value,
            FresnelSel::spec_from_raw(value) is None ==> forall|e: FresnelSel| e.spec_raw() != value,
    {
    }
}

impl TryFrom<u8> for FresnelSel {
    type Error = String;

    fn try_from(value: u8) -> (r: Result<Self, String>)
        ensures
            match r {
                Ok(e) => FresnelSel::spec_from_raw(value) == Some(e),
                Err(s) => FresnelSel::spec_from_raw(value) is None && s@ == "Invalid value for FresnelSel"@,
            },
    {
        match value {
            0 => Ok(FresnelSel::NoFresnel),
            1 => Ok(FresnelSel::PrimaryAlpha),
            2 => Ok(FresnelSel::SecondaryAlpha),
            3 => Ok(FresnelSel::PrimarySecondaryAlpha),
            _ => Err("Invalid value for FresnelSel".to_string()),
        }
    }
}

impl vstd::std_specs::convert::TryFromSpecImpl<u8> for FresnelSel {
    open spec fn obeys_try_from_spec() -> bool {
        false
    }

    open spec fn try_from_spec(value: u8) -> Result<Self, String> {
        match FresnelSel::spec_from_raw(value) {
            Some(e) => Ok(e),
            None => Err(arbitrary()),
        }
    }
}

/// Bump map modes.
#[derive(Clone, Copy, Debug, PartialEq, Eq)]
pub enum BumpMappingMode {
    /// Disabled.
    NotUsed,
    /// Bump as bump mapping.
    AsBump,
    /// Bump as tangent/normal mapping.
    AsTangent,
}

impl BumpMappingMode {
    /// The raw `GPU_BUMPMODE` value that encodes this variant.
    pub open spec fn spec_raw(self) -> u8 {
        match self {
            BumpMappingMode::NotUsed => 0,
            BumpMappingMode::AsBump => 1,
            BumpMappingMode::AsTangent => 2,
        }
    }

    /// The variant that the raw value `value` encodes, if any.
    pub open spec fn spec_from_raw(value: u8) -> Option<Self> {
        if value == 0 {
            Some(BumpMappingMode::NotUsed)
        } else if value == 1 {
            Some(BumpMappingMode::AsBump)
        } else if value == 2 {
            Some(BumpMappingMode::AsTangent)
        } else {
            None
        }
    }

    /// Each variant encodes to the `GPU_BUMPMODE` value that the hardware defines for it, and each of these values decodes to that variant.
    pub proof fn lemma_raw_values()
        ensures
            BumpMappingMode::NotUsed.spec_raw() == 0,
            BumpMappingMode::AsBump.spec_raw() == 1,
            BumpMappingMode::AsTangent.spec_raw() == 2,
            BumpMappingMode::spec_from_raw(0) == Some(BumpMappingMode::NotUsed),
            BumpMappingMode::spec_from_raw(1) == Some(BumpMappingMode::AsBump),
            BumpMappingMode::spec_from_raw(2) == Some(BumpMappingMode::AsTangent),
    {
    }

    /// The raw `GPU_BUMPMODE` value of this variant.
    pub fn raw(self) -> (r: u8)
        ensures
            r == self.spec_raw(),
    {
        match self {
            BumpMappingMode::NotUsed => 0,
            BumpMappingMode::AsBump => 1,
            BumpMappingMode::AsTangent => 2,
        }
    }

    /// Encoding a variant and decoding the result gives the variant back, and a
    /// raw value decodes only to the variant that encodes it.
    pub proof fn lemma_raw_round_trip(self, value: u8)
        ensures
            BumpMappingMode::spec_from_raw(self.spec_raw()) == Some(self),
            BumpMappingMode::spec_from_raw(value) matches Some(e) ==> e.spec_raw() == value,
            BumpMappingMode::spec_from_raw(value) is None ==> forall|e: BumpMappingMode| e.spec_raw() != value,
    {
    }
}

impl TryFrom<u8> for BumpMappingMode {
    type Error = String;

    fn try_from(value: u8) -> (r: Result<Self, String>)
        ensures
            match r {
                Ok(e) => BumpMappingMode::spec_from_raw(value) == Some(e),
                Err(s) => BumpMappingMode::spec_from_raw(value) is None && s@ == "Invalid value for BumpMappingMode"@,
            },
    {
        match value {
            0 => Ok(BumpMappingMode::NotUsed),
            1 => Ok(BumpMappingMode::AsBump),
            2 => Ok(BumpMappingMode::AsTangent),
            _ => Err("Invalid value for BumpMappingMode".to_string()),
        }
    }
}

impl vstd::std_specs::convert::TryFromSpecImpl<u8> for BumpMappingMode {
    open spec fn obeys_try_from_spec() -> bool {
        false
    }

    open spec fn try_from_spec(value: u8) -> Result<Self, String> {
        match BumpMappingMode::spec_from_raw(value) {
            Some(e) => Ok(e),
            None => Err(arbitrary()),
        }
    }
}

/// LUT IDs.
#[derive(Clone, Copy, Debug, PartialEq, Eq)]
pub enum LightLutId {
    /// Distribution 0.
    Directional0,
    /// Distribution 1.
    Directional1,
    /// Spotlight.
    Spotlight,
    /// Fresnel.
    Fresnel,
    /// Reflection (blue).
    ReflectionBlue,
    /// Reflection (green).
    ReflectionGreen,
    /// Reflection (red).
    ReflectionRed,
    /// Distance attenuation.
    DistanceAttenuation,
}

impl LightLutId {
    /// The raw `GPU_LIGHTLUTID` value that encodes this variant.
    pub open spec fn spec_raw(self) -> u8 {
        match self {
            LightLutId::Directional0 => 0,
            LightLutId::Directional1 => 1,
            LightLutId::Spotlight => 2,
            LightLutId::Fresnel => 3,
            LightLutId::ReflectionBlue => 4,
            LightLutId::ReflectionGreen => 5,
            LightLutId::ReflectionRed => 6,
            LightLutId::DistanceAttenuation => 7,
        }
    }

    /// The variant that the raw value `value` encodes, if any.
    pub open spec fn spec_from_raw(value: u8) -> Option<Self> {
        if value == 0 {
            Some(LightLutId::Directional0)
        } else if value == 1 {
            Some(LightLutId::Directional1)
        } else if value == 2 {
            Some(LightLutId::Spotlight)
        } else if value == 3 {
            Some(LightLutId::Fresnel)
        } else if value == 4 {
            Some(LightLutId::ReflectionBlue)
        } else if value == 5 {
            Some(LightLutId::ReflectionGreen)
        } else if value == 6 {
            Some(LightLutId::ReflectionRed)
        } else if value == 7 {
            Some(LightLutId::DistanceAttenuation)
        } else {
            None
        }
    }

    /// Each variant encodes to the `GPU_LIGHTLUTID` value that the hardware defines for it, and each of these values decodes to that variant.
    pub proof fn lemma_raw_values()
        ensures
            LightLutId::Directional0.spec_raw() == 0,
            LightLutId::Directional1.spec_raw() == 1,
            LightLutId::Spotlight.spec_raw() == 2,
            LightLutId::Fresnel.spec_raw() == 3,
            LightLutId::ReflectionBlue.spec_raw() == 4,
            LightLutId::ReflectionGreen.spec_raw() == 5,
            LightLutId::ReflectionRed.spec_raw() == 6,
            LightLutId::DistanceAttenuation.spec_raw() == 7,
            LightLutId::spec_from_raw(0) == Some(LightLutId::Directional0),
            LightLutId::spec_from_raw(1) == Some(LightLutId::Directional1),
            LightLutId::spec_from_raw(2) == Some(LightLutId::Spotlight),
            LightLutId::spec_from_raw(3) == Some(LightLutId::Fresnel),
            LightLutId::spec_from_raw(4) == Some(LightLutId::ReflectionBlue),
            LightLutId::spec_from_raw(5) == Some(LightLutId::ReflectionGreen),
            LightLutId::spec_from_raw(6) == Some(LightLutId::ReflectionRed),
            LightLutId::spec_from_raw(7) == Some(LightLutId::DistanceAttenuation),
    {
    }

    /// The raw `GPU_LIGHTLUTID` value of this variant.
    pub fn raw(self) -> (r: u8)
        ensures
            r == self.spec_raw(),
    {
        match self {
            LightLutId::Directional0 => 0,
            LightLutId::Directional1 => 1,
            LightLutId::Spotlight => 2,
            LightLutId::Fresnel => 3,
            LightLutId::ReflectionBlue => 4,
            LightLutId::ReflectionGreen => 5,
            LightLutId::ReflectionRed => 6,
            LightLutId::DistanceAttenuation => 7,
        }
    }

    /// Encoding a variant and decoding the result gives the variant back, and a
    /// raw value decodes only to the variant that encodes it.
    pub proof fn lemma_raw_round_trip(self, value: u8)
        ensures
            LightLutId::spec_from_raw(self.spec_raw()) == Some(self),
            LightLutId::spec_from_raw(value) matches Some(e) ==> e.spec_raw() == value,
            LightLutId::spec_from_raw(value) is None ==> forall|e: LightLutId| e.spec_raw() != value,
    {
    }
}

impl TryFrom<u8> for LightLutId {
    type Error = String;

    fn try_from(value: u8) -> (r: Result<Self, String>)
        ensures
            match r {
                Ok(e) => LightLutId::spec_from_raw(value) == Some(e),
                Err(s) => LightLutId::spec_from_raw(value) is None && s@ == "Invalid value for LightLutId"@,
            },
    {
        match value {
            0 => Ok(LightLutId::Directional0),
            1 => Ok(LightLutId::Directional1),
            2 => Ok(LightLutId::Spotlight),
            3 => Ok(LightLutId::Fresnel),
            4 => Ok(LightLutId::ReflectionBlue),
            5 => Ok(LightLutId::ReflectionGreen),
            6 => Ok(LightLutId::ReflectionRed),
            7 => Ok(LightLutId::DistanceAttenuation),
            _ => Err("Invalid value for LightLutId".to_string()),
        }
    }
}

impl vstd::std_specs::convert::TryFromSpecImpl<u8> for LightLutId {
    open spec fn obeys_try_from_spec() -> bool {
        false
    }

    open spec fn try_from_spec(value: u8) -> Result<Self, String> {
        match LightLutId::spec_from_raw(value) {
            Some(e) => Ok(e),
            None => Err(arbitrary()),
        }
    }
}

/// LUT inputs.
#[derive(Clone, Copy, Debug, PartialEq, Eq)]
pub enum LightLutInput {
    /// Normal*HalfVector.
    NormalHalfVector,
    /// View*HalfVector.
    ViewHalfVector,
    /// Normal*View.
    NormalView,
    /// LightVector*Normal.
    LightVectorNormal,
    /// -LightVector*SpotlightVector.
    NegativeLightVectorSpotlightVector,
    /// cosine of phi.
    CosineOfPhi,
}

impl LightLutInput {
    /// The raw `GPU_LIGHTLUTINPUT` value that encodes this variant.
    pub open spec fn spec_raw(self) -> u8 {
        match self {
            LightLutInput::NormalHalfVector => 0,
            LightLutInput::ViewHalfVector => 1,
            LightLutInput::NormalView => 2,
            LightLutInput::LightVectorNormal => 3,
            LightLutInput::NegativeLightVectorSpotlightVector => 4,
            LightLutInput::CosineOfPhi => 5,
        }
    }

    /// The variant that the raw value `value` encodes, if any.
    pub open spec fn spec_from_raw(value: u8) -> Option<Self> {
        if value == 0 {
            Some(LightLutInput::NormalHalfVector)
        } else if value == 1 {
            Some(LightLutInput::ViewHalfVector)
        } else if value == 2 {
            Some(LightLutInput::NormalView)
        } else if value == 3 {
            Some(LightLutInput::LightVectorNormal)
        } else if value == 4 {
            Some(LightLutInput::NegativeLightVectorSpotlightVector)
        } else if value == 5 {
            Some(LightLutInput::CosineOfPhi)
        } else {
            None
        }
    }

    /// Each variant encodes to the `GPU_LIGHTLUTINPUT` value that the hardware defines for it, and each of these values decodes to that variant.
    pub proof fn lemma_raw_values()
        ensures
            LightLutInput::NormalHalfVector.spec_raw() == 0,
            LightLutInput::ViewHalfVector.spec_raw() == 1,
            LightLutInput::NormalView.spec_raw() == 2,
            LightLutInput::LightVectorNormal.spec_raw() == 3,
            LightLutInput::NegativeLightVectorSpotlightVector.spec_raw() == 4,
            LightLutInput::CosineOfPhi.spec_raw() == 5,
            LightLutInput::spec_from_raw(0) == Some(LightLutInput::NormalHalfVector),
            LightLutInput::spec_from_raw(1) == Some(LightLutInput::ViewHalfVector),
            LightLutInput::spec_from_raw(2) == Some(LightLutInput::NormalView),
            LightLutInput::spec_from_raw(3) == Some(LightLutInput::LightVectorNormal),
            LightLutInput::spec_from_raw(4) == Some(LightLutInput::NegativeLightVectorSpotlightVector),
            LightLutInput::spec_from_raw(5) == Some(LightLutInput::CosineOfPhi),
    {
    }

    /// The raw `GPU_LIGHTLUTINPUT` value of this variant.
    pub fn raw(self) -> (r: u8)
        ensures
            r == self.spec_raw(),
    {
        match self {
            LightLutInput::NormalHalfVector => 0,
            LightLutInput::ViewHalfVector => 1,
            LightLutInput::NormalView => 2,
            LightLutInput::LightVectorNormal => 3,
            LightLutInput::NegativeLightVectorSpotlightVector => 4,
            LightLutInput::CosineOfPhi => 5,
        }
    }

    /// Encoding a variant and decoding the result gives the variant back, and a
    /// raw value decodes only to the variant that encodes it.
    pub proof fn lemma_raw_round_trip(self, value: u8)
        ensures
            LightLutInput::spec_from_raw(self.spec_raw()) == Some(self),
            LightLutInput::spec_from_raw(value) matches Some(e) ==> e.spec_raw() == value,
            LightLutInput::spec_from_raw(value) is None ==> forall|e: LightLutInput| e.spec_raw() != value,
    {
    }
}

impl TryFrom<u8> for LightLutInput {
    type Error = String;

    fn try_from(value: u8) -> (r: Result<Self, String>)
        ensures
            match r {
                Ok(e) => LightLutInput::spec_from_raw(value) == Some(e),
                Err(s) => LightLutInput::spec_from_raw(value) is None && s@ == "Invalid value for LightLutInput"@,
            },
    {
        match value {
            0 => Ok(LightLutInput::NormalHalfVector),
            1 => Ok(LightLutInput::ViewHalfVector),
            2 => Ok(LightLutInput::NormalView),
            3 => Ok(LightLutInput::LightVectorNormal),
            4 => Ok(LightLutInput::NegativeLightVectorSpotlightVector),
            5 => Ok(LightLutInput::CosineOfPhi),
            _ => Err("Invalid value for LightLutInput".to_string()),
        }
    }
}

impl vstd::std_specs::convert::TryFromSpecImpl<u8> for LightLutInput {
    open spec fn obeys_try_from_spec() -> bool {
        false
    }

    open spec fn try_from_spec(value: u8) -> Result<Self, String> {
        match LightLutInput::spec_from_raw(value) {
            Some(e) => Ok(e),
            None => Err(arbitrary()),
        }
    }
}

/// LUT scalers.
#[derive(Clone, Copy, Debug, PartialEq, Eq)]
pub enum LightLutScaler {
    /// 1x scale.
    OneX,
    /// 2x scale.
    TwoX,
    /// 4x scale.
    FourX,
    /// 8x scale.
    EightX,
    /// 0.25x scale.
    QuarterX,
    /// 0.5x scale.
    HalfX,
}

impl LightLutScaler {
    /// The raw `GPU_LIGHTLUTSCALER` value that encodes this variant.
    pub open spec fn spec_raw(self) -> u8 {
        match self {
            LightLutScaler::OneX => 0,
            LightLutScaler::TwoX => 1,
            LightLutScaler::FourX => 2,
            LightLutScaler::EightX => 3,
            LightLutScaler::QuarterX => 6,
            LightLutScaler::HalfX => 7,
        }
    }

    /// The variant that the raw value `value` encodes, if any.
    pub open spec fn spec_from_raw(value: u8) -> Option<Self> {
        if value == 0 {
            Some(LightLutScaler::OneX)
        } else if value == 1 {
            Some(LightLutScaler::TwoX)
        } else if value == 2 {
            Some(LightLutScaler::FourX)
        } else if value == 3 {
            Some(LightLutScaler::EightX)
        } else if value == 6 {
            Some(LightLutScaler::QuarterX)
        } else if value == 7 {
            Some(LightLutScaler::HalfX)
        } else {
            None
        }
    }

    /// Each variant encodes to the `GPU_LIGHTLUTSCALER` value that the hardware defines for it, and each of these values decodes to that variant.
    pub proof fn lemma_raw_values()
        ensures
            LightLutScaler::OneX.spec_raw() == 0,
            LightLutScaler::TwoX.spec_raw() == 1,
            LightLutScaler::FourX.spec_raw() == 2,
            LightLutScaler::EightX.spec_raw() == 3,
            LightLutScaler::QuarterX.spec_raw() == 6,
            LightLutScaler::HalfX.spec_raw() == 7,
            LightLutScaler::spec_from_raw(0) == Some(LightLutScaler::OneX),
            LightLutScaler::spec_from_raw(1) == Some(LightLutScaler::TwoX),
            LightLutScaler::spec_from_raw(2) == Some(LightLutScaler::FourX),
            LightLutScaler::spec_from_raw(3) == Some(LightLutScaler::EightX),
            LightLutScaler::spec_from_raw(6) == Some(LightLutScaler::QuarterX),
            LightLutScaler::spec_from_raw(7) == Some(LightLutScaler::HalfX),
    {
    }

    /// The raw `GPU_LIGHTLUTSCALER` value of this variant.
    pub fn raw(self) -> (r: u8)
        ensures
            r == self.spec_raw(),
    {
        match self {
            LightLutScaler::OneX => 0,
            LightLutScaler::TwoX => 1,
            LightLutScaler::FourX => 2,
            LightLutScaler::EightX => 3,
            LightLutScaler::QuarterX => 6,
            LightLutScaler::HalfX => 7,
        }
    }

    /// Encoding a variant and decoding the result gives the variant back, and a
    /// raw value decodes only to the variant that encodes it.
    pub proof fn lemma_raw_round_trip(self, value: u8)
        ensures
            LightLutScaler::spec_from_raw(self.spec_raw()) == Some(self),
            LightLutScaler::spec_from_raw(value) matches Some(e) ==> e.spec_raw() == value,
            LightLutScaler::spec_from_raw(value) is None ==> forall|e: LightLutScaler| e.spec_raw() != value,
    {
    }
}

impl TryFrom<u8> for LightLutScaler {
    type Error = String;

    fn try_from(value: u8) -> (r: Result<Self, String>)
        ensures
            match r {
                Ok(e) => LightLutScaler::spec_from_raw(value) == Some(e),
                Err(s) => LightLutScaler::spec_from_raw(value) is None && s@ == "Invalid value for LightLutScaler"@,
            },
    {
        match value {
            0 => Ok(LightLutScaler::OneX),
            1 => Ok(LightLutScaler::TwoX),
            2 => Ok(LightLutScaler::FourX),
            3 => Ok(LightLutScaler::EightX),
            6 => Ok(LightLutScaler::QuarterX),
            7 => Ok(LightLutScaler::HalfX),
            _ => Err("Invalid value for LightLutScaler".to_string()),
        }
    }
}

impl vstd::std_specs::convert::TryFromSpecImpl<u8> for LightLutScaler {
    open spec fn obeys_try_from_spec() -> bool {
        false
    }

    open spec fn try_from_spec(value: u8) -> Result<Self, String> {
        match LightLutScaler::spec_from_raw(value) {
            Some(e) => Ok(e),
            None => Err(arbitrary()),
        }
    }
}

/// LUT selection.
#[derive(Clone, Copy, Debug, PartialEq, Eq)]
pub enum LightLutSelect {
    /// LUTs that are common to all lights.
    Common,
    /// Spotlight LUT.
    Spotlight,
    /// Distance attenuation LUT.
    DistanceAttenuation,
}

impl LightLutSelect {
    /// The raw `GPU_LIGHTLUTSELECT` value that encodes this variant.
    pub open spec fn spec_raw(self) -> u8 {
        match self {
            LightLutSelect::Common => 0,
            LightLutSelect::Spotlight => 1,
            LightLutSelect::DistanceAttenuation => 2,
        }
    }

    /// The variant that the raw value `value` encodes, if any.
    pub open spec fn spec_from_raw(value: u8) -> Option<Self> {
        if value == 0 {
            Some(LightLutSelect::Common)
        } else if value == 1 {
            Some(LightLutSelect::Spotlight)
        } else if value == 2 {
            Some(LightLutSelect::DistanceAttenuation)
        } else {
            None
        }
    }

    /// Each variant encodes to the `GPU_LIGHTLUTSELECT` value that the hardware defines for it, and each of these values decodes to that variant.
    pub proof fn lemma_raw_values()
        ensures
            LightLutSelect::Common.spec_raw() == 0,
            LightLutSelect::Spotlight.spec_raw() == 1,
            LightLutSelect::DistanceAttenuation.spec_raw() == 2,
            LightLutSelect::spec_from_raw(0) == Some(LightLutSelect::Common),
            LightLutSelect::spec_from_raw(1) == Some(LightLutSelect::Spotlight),
            LightLutSelect::spec_from_raw(2) == Some(LightLutSelect::DistanceAttenuation),
    {
    }

    /// The raw `GPU_LIGHTLUTSELECT` value of this variant.
    pub fn raw(self) -> (r: u8)
        ensures
            r == self.spec_raw(),
    {
        match self {
            LightLutSelect::Common => 0,
            LightLutSelect::Spotlight => 1,
            LightLutSelect::DistanceAttenuation => 2,
        }
    }

    /// Encoding a variant and decoding the result gives the variant back, and a
    /// raw value decodes only to the variant that encodes it.
    pub proof fn lemma_raw_round_trip(self, value: u8)
        ensures
            LightLutSelect::spec_from_raw(self.spec_raw()) == Some(self),
            LightLutSelect::spec_from_raw(value) matches Some(e) ==> e.spec_raw() == value,
            LightLutSelect::spec_from_raw(value) is None ==> forall|e: LightLutSelect| e.spec_raw() != value,
    {
    }
}

impl TryFrom<u8> for LightLutSelect {
    type Error = String;

    fn try_from(value: u8) -> (r: Result<Self, String>)
        ensures
            match r {
                Ok(e) => LightLutSelect::spec_from_raw(value) == Some(e),
                Err(s) => LightLutSelect::spec_from_raw(value) is None && s@ == "Invalid value for LightLutSelect"@,
            },
    {
        match value {
            0 => Ok(LightLutSelect::Common),
            1 => Ok(LightLutSelect::Spotlight),
            2 => Ok(LightLutSelect::DistanceAttenuation),
            _ => Err("Invalid value for LightLutSelect".to_string()),
        }
    }
}

impl vstd::std_specs::convert::TryFromSpecImpl<u8> for LightLutSelect {
    open spec fn obeys_try_from_spec() -> bool {
        false
    }

    open spec fn try_from_spec(value: u8) -> Result<Self, String> {
        match LightLutSelect::spec_from_raw(value) {
            Some(e) => Ok(e),
            None => Err(arbitrary()),
        }
    }
}

/// Fog modes.
#[derive(Clone, Copy, Debug, PartialEq, Eq)]
pub enum FogMode {
    /// Fog/Gas unit disabled.
    NoFog,
    /// Fog/Gas unit configured in Fog mode.
    Fog,
    /// Fog/Gas unit configured in Gas mode.
    Gas,
}

impl FogMode {
    /// The raw `GPU_FOGMODE` value that encodes this variant.
    pub open spec fn spec_raw(self) -> u8 {
        match self {
            FogMode::NoFog => 0,
            FogMode::Fog => 5,
            FogMode::Gas => 7,
        }
    }

    /// The variant that the raw value `value` encodes, if any.
    pub open spec fn spec_from_raw(value: u8) -> Option<Self> {
        if value == 0 {
            Some(FogMode::NoFog)
        } else if value == 5 {
            Some(FogMode::Fog)
        } else if value == 7 {
            Some(FogMode::Gas)
        } else {
            None
        }
    }

    /// Each variant encodes to the `GPU_FOGMODE` value that the hardware defines for it, and each of these values decodes to that variant.
    pub proof fn lemma_raw_values()
        ensures
            FogMode::NoFog.spec_raw() == 0,
            FogMode::Fog.spec_raw() == 5,
            FogMode::Gas.spec_raw() == 7,
            FogMode::spec_from_raw(0) == Some(FogMode::NoFog),
            FogMode::spec_from_raw(5) == Some(FogMode::Fog),
            FogMode::spec_from_raw(7) == Some(FogMode::Gas),
    {
    }

    /// The raw `GPU_FOGMODE` value of this variant.
    pub fn raw(self) -> (r: u8)
        ensures
            r == self.spec_raw(),
    {
        match self {
            FogMode::NoFog => 0,
            FogMode::Fog => 5,
            FogMode::Gas => 7,
        }
    }

    /// Encoding a variant and decoding the result gives the variant back, and a
    /// raw value decodes only to the variant that encodes it.
    pub proof fn lemma_raw_round_trip(self, value: u8)
        ensures
            FogMode::spec_from_raw(self.spec_raw()) == Some(self),
            FogMode::spec_from_raw(value) matches Some(e) ==> e.spec_raw() == value,
            FogMode::spec_from_raw(value) is None ==> forall|e: FogMode| e.spec_raw() != value,
    {
    }
}

impl TryFrom<u8> for FogMode {
    type Error = String;

    fn try_from(value: u8) -> (r: Result<Self, String>)
        ensures
            match r {
                Ok(e) => FogMode::spec_from_raw(value) == Some(e),
                Err(s) => FogMode::spec_from_raw(value) is None && s@ == "Invalid value for FogMode"@,
            },
    {
        match value {
            0 => Ok(FogMode::NoFog),
            5 => Ok(FogMode::Fog),
            7 => Ok(FogMode::Gas),
            _ => Err("Invalid value for FogMode".to_string()),
        }
    }
}

impl vstd::std_specs::convert::TryFromSpecImpl<u8> for FogMode {
    open spec fn obeys_try_from_spec() -> bool {
        false
    }

    open spec fn try_from_spec(value: u8) -> Result<Self, String> {
        match FogMode::spec_from_raw(value) {
            Some(e) => Ok(e),
            None => Err(arbitrary()),
        }
    }
}

/// Gas shading density source values.
#[derive(Clone, Copy, Debug, PartialEq, Eq)]
pub enum GasMode {
    /// Plain density.
    PlainDensity,
    /// Depth density.
    DepthDensity,
}

impl GasMode {
    /// The raw `GPU_GASMODE` value that encodes this variant.
    pub open spec fn spec_raw(self) -> u8 {
        match self {
            GasMode::PlainDensity => 0,
            GasMode::DepthDensity => 1,
        }
    }

    /// The variant that the raw value `value` encodes, if any.
    pub open spec fn spec_from_raw(value: u8) -> Option<Self> {
        if value == 0 {
            Some(GasMode::PlainDensity)
        } else if value == 1 {
            Some(GasMode::DepthDensity)
        } else {
            None
        }
    }

    /// Each variant encodes to the `GPU_GASMODE` value that the hardware defines for it, and each of these values decodes to that variant.
    pub proof fn lemma_raw_values()
        ensures
            GasMode::PlainDensity.spec_raw() == 0,
            GasMode::DepthDensity.spec_raw() == 1,
            GasMode::spec_from_raw(0) == Some(GasMode::PlainDensity),
            GasMode::spec_from_raw(1) == Some(GasMode::DepthDensity),
    {
    }

    /// The raw `GPU_GASMODE` value of this variant.
    pub fn raw(self) -> (r: u8)
        ensures
            r == self.spec_raw(),
    {
        match self {
            GasMode::PlainDensity => 0,
            GasMode::DepthDensity => 1,
        }
    }

    /// Encoding a variant and decoding the result gives the variant back, and a
    /// raw value decodes only to the variant that encodes it.
    pub proof fn lemma_raw_round_trip(self, value: u8)
        ensures
            GasMode::spec_from_raw(self.spec_raw()) == Some(self),
            GasMode::spec_from_raw(value) matches Some(e) ==> e.spec_raw() == value,
            GasMode::spec_from_raw(value) is None ==> forall|e: GasMode| e.spec_raw() != value,
    {
    }
}

impl TryFrom<u8> for GasMode {
    type Error = String;

    fn try_from(value: u8) -> (r: Result<Self, String>)
        ensures
            match r {
                Ok(e) => GasMode::spec_from_raw(value) == Some(e),
                Err(s) => GasMode::spec_from_raw(value) is None && s@ == "Invalid value for GasMode"@,
            },
    {
        match value {
            0 => Ok(GasMode::PlainDensity),
            1 => Ok(GasMode::DepthDensity),
            _ => Err("Invalid value for GasMode".to_string()),
        }
    }
}

impl vstd::std_specs::convert::TryFromSpecImpl<u8> for GasMode {
    open spec fn obeys_try_from_spec() -> bool {
        false
    }

    open spec fn try_from_spec(value: u8) -> Result<Self, String> {
        match GasMode::spec_from_raw(value) {
            Some(e) => Ok(e),
            None => Err(arbitrary()),
        }
    }
}

/// Gas color LUT inputs.
#[derive(Clone, Copy, Debug, PartialEq, Eq)]
pub enum GasLutInput {
    /// Gas density used as input.
    Density,
    /// Light factor used as input.
    LightFactor,
}

impl GasLutInput {
    /// The raw `GPU_GASLUTINPUT` value that encodes this variant.
    pub open spec fn spec_raw(self) -> u8 {
        match self {
            GasLutInput::Density => 0,
            GasLutInput::LightFactor => 1,
        }
    }

    /// The variant that the raw value `value` encodes, if any.
    pub open spec fn spec_from_raw(value: u8) -> Option<Self> {
        if value == 0 {
            Some(GasLutInput::Density)
        } else if value == 1 {
            Some(GasLutInput::LightFactor)
        } else {
            None
        }
    }

    /// Each variant encodes to the `GPU_GASLUTINPUT` value that the hardware defines for it, and each of these values decodes to that variant.
    pub proof fn lemma_raw_values()
        ensures
            GasLutInput::Density.spec_raw() == 0,
            GasLutInput::LightFactor.spec_raw() == 1,
            GasLutInput::spec_from_raw(0) == Some(GasLutInput::Density),
            GasLutInput::spec_from_raw(1) == Some(GasLutInput::LightFactor),
    {
    }

    /// The raw `GPU_GASLUTINPUT` value of this variant.
    pub fn raw(self) -> (r: u8)
        ensures
            r == self.spec_raw(),
    {
        match self {
            GasLutInput::Density => 0,
            GasLutInput::LightFactor => 1,
        }
    }

    /// Encoding a variant and decoding the result gives the variant back, and a
    /// raw value decodes only to the variant that encodes it.
    pub proof fn lemma_raw_round_trip(self, value: u8)
        ensures
            GasLutInput::spec_from_raw(self.spec_raw()) == Some(self),
            GasLutInput::spec_from_raw(value) matches Some(e) ==> e.spec_raw() == value,
            GasLutInput::spec_from_raw(value) is None ==> forall|e: GasLutInput| e.spec_raw() != value,
    {
    }
}

impl TryFrom<u8> for GasLutInput {
    type Error = String;

    fn try_from(value: u8) -> (r: Result<Self, String>)
        ensures
            match r {
                Ok(e) => GasLutInput::spec_from_raw(value) == Some(e),
                Err(s) => GasLutInput::spec_from_raw(value) is None && s@ == "Invalid value for GasLutInput"@,
            },
    {
        match value {
            0 => Ok(GasLutInput::Density),
            1 => Ok(GasLutInput::LightFactor),
            _ => Err("Invalid value for GasLutInput".to_string()),
        }
    }
}

impl vstd::std_specs::convert::TryFromSpecImpl<u8> for GasLutInput {
    open spec fn obeys_try_from_spec() -> bool {
        false
    }

    open spec fn try_from_spec(value: u8) -> Result<Self, String> {
        match GasLutInput::spec_from_raw(value) {
            Some(e) => Ok(e),
            None => Err(arbitrary()),
        }
    }
}

} // verus!
