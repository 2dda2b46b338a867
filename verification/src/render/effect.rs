//! Render effects and behaviour used by the GPU.

use vstd::pervasive::arbitrary;
use vstd::prelude::*;

verus! {

/// Test functions.
#[derive(Clone, Copy, Debug, PartialEq, Eq)]
pub enum TestFunction {
    /// Never pass.
    Never,
    /// Always pass.
    Always,
    /// Pass if equal.
    Equal,
    /// Pass if not equal.
    NotEqual,
    /// Pass if less than.
    Less,
    /// Pass if less than or equal.
    LessOrEqual,
    /// Pass if greater than.
    Greater,
    /// Pass if greater than or equal.
    GreaterOrEqual,
}

impl TestFunction {
    /// The raw `GPU_TESTFUNC` value that encodes this variant.
    pub open spec fn spec_raw(self) -> u8 {
        match self {
            TestFunction::Never => 0,
            TestFunction::Always => 1,
            TestFunction::Equal => 2,
            TestFunction::NotEqual => 3,
            TestFunction::Less => 4,
            TestFunction::LessOrEqual => 5,
            TestFunction::Greater => 6,
            TestFunction::GreaterOrEqual => 7,
        }
    }

    /// The variant that the raw value `value` encodes, if any.
    pub open spec fn spec_from_raw(value: u8) -> Option<Self> {
        if value == 0 {
            Some(TestFunction::Never)
        } else if value == 1 {
            Some(TestFunction::Always)
        } else if value == 2 {
            Some(TestFunction::Equal)
        } else if value == 3 {
            Some(TestFunction::NotEqual)
        } else if value == 4 {
            Some(TestFunction::Less)
        } else if value == 5 {
            Some(TestFunction::LessOrEqual)
        } else if value == 6 {
            Some(TestFunction::Greater)
        } else if value == 7 {
            Some(TestFunction::GreaterOrEqual)
        } else {
            None
        }
    }

    /// Each variant encodes to the `GPU_TESTFUNC` value that the hardware defines for it, and each of these values decodes to that variant.
    pub proof fn lemma_raw_values()
        ensures
            TestFunction::Never.spec_raw() == 0,
            TestFunction::Always.spec_raw() == 1,
            TestFunction::Equal.spec_raw() == 2,
            TestFunction::NotEqual.spec_raw() == 3,
            TestFunction::Less.spec_raw() == 4,
            TestFunction::LessOrEqual.spec_raw() == 5,
            TestFunction::Greater.spec_raw() == 6,
            TestFunction::GreaterOrEqual.spec_raw() == 7,
            TestFunction::spec_from_raw(0) == Some(TestFunction::Never),
            TestFunction::spec_from_raw(1) == Some(TestFunction::Always),
            TestFunction::spec_from_raw(2) == Some(TestFunction::Equal),
            TestFunction::spec_from_raw(3) == Some(TestFunction::NotEqual),
            TestFunction::spec_from_raw(4) == Some(TestFunction::Less),
            TestFunction::spec_from_raw(5) == Some(TestFunction::LessOrEqual),
            TestFunction::spec_from_raw(6) == Some(TestFunction::Greater),
            TestFunction::spec_from_raw(7) == Some(TestFunction::GreaterOrEqual),
    {
    }

    /// The raw `GPU_TESTFUNC` value of this variant.
    pub fn raw(self) -> (r: u8)
        ensures
            r == self.spec_raw(),
    {
        match self {
            TestFunction::Never => 0,
            TestFunction::Always => 1,
            TestFunction::Equal => 2,
            TestFunction::NotEqual => 3,
            TestFunction::Less => 4,
            TestFunction::LessOrEqual => 5,
            TestFunction::Greater => 6,
            TestFunction::GreaterOrEqual => 7,
        }
    }

    /// Encoding a variant and decoding the result gives the variant back, and a
    /// raw value decodes only to the variant that encodes it.
    pub proof fn lemma_raw_round_trip(self, value: u8)
        ensures
            TestFunction::spec_from_raw(self.spec_raw()) == Some(self),
            TestFunction::spec_from_raw(value) matches Some(e) ==> e.spec_raw() == value,
            TestFunction::spec_from_raw(value) is None ==> forall|e: TestFunction| e.spec_raw() != value,
    {
    }
}

impl TryFrom<u8> for TestFunction {
    type Error = String;

    fn try_from(value: u8) -> (r: Result<Self, String>)
        ensures
            match r {
                Ok(e) => TestFunction::spec_from_raw(value) == Some(e),
                Err(s) => TestFunction::spec_from_raw(value) is None && s@ == "invalid value for TestFunction"@,
            },
    {
        match value {
            0 => Ok(TestFunction::Never),
            1 => Ok(TestFunction::Always),
            2 => Ok(TestFunction::Equal),
            3 => Ok(TestFunction::NotEqual),
            4 => Ok(TestFunction::Less),
            5 => Ok(TestFunction::LessOrEqual),
            6 => Ok(TestFunction::Greater),
            7 => Ok(TestFunction::GreaterOrEqual),
            _ => Err("invalid value for TestFunction".to_string()),
        }
    }
}

impl vstd::std_specs::convert::TryFromSpecImpl<u8> for TestFunction {
    open spec fn obeys_try_from_spec() -> bool {
        false
    }

    open spec fn try_from_spec(value: u8) -> Result<Self, String> {
        match TestFunction::spec_from_raw(value) {
            Some(e) => Ok(e),
            None => Err(arbitrary()),
        }
    }
}

/// Early depth test functions.
#[derive(Clone, Copy, Debug, PartialEq, Eq)]
pub enum EarlyDepthFunction {
    /// Pass if greater than or equal.
    GreaterOrEqual,
    /// Pass if greater than.
    Greater,
    /// Pass if less than or equal.
    LessOrEqual,
    /// Pass if less than.
    Less,
}

impl EarlyDepthFunction {
    /// The raw `GPU_EARLYDEPTHFUNC` value that encodes this variant.
    pub open spec fn spec_raw(self) -> u8 {
        match self {
            EarlyDepthFunction::GreaterOrEqual => 0,
            EarlyDepthFunction::Greater => 1,
            EarlyDepthFunction::LessOrEqual => 2,
            EarlyDepthFunction::Less => 3,
        }
    }

    /// The variant that the raw value `value` encodes, if any.
    pub open spec fn spec_from_raw(value: u8) -> Option<Self> {
        if value == 0 {
            Some(EarlyDepthFunction::GreaterOrEqual)
        } else if value == 1 {
            Some(EarlyDepthFunction::Greater)
        } else if value == 2 {
            Some(EarlyDepthFunction::LessOrEqual)
        } else if value == 3 {
            Some(EarlyDepthFunction::Less)
        } else {
            None
        }
    }

    /// Each variant encodes to the `GPU_EARLYDEPTHFUNC` value that the hardware defines for it, and each of these values decodes to that variant.
    pub proof fn lemma_raw_values()
        ensures
            EarlyDepthFunction::GreaterOrEqual.spec_raw() == 0,
            EarlyDepthFunction::Greater.spec_raw() == 1,
            EarlyDepthFunction::LessOrEqual.spec_raw() == 2,
            EarlyDepthFunction::Less.spec_raw() == 3,
            EarlyDepthFunction::spec_from_raw(0) == Some(EarlyDepthFunction::GreaterOrEqual),
            EarlyDepthFunction::spec_from_raw(1) == Some(EarlyDepthFunction::Greater),
            EarlyDepthFunction::spec_from_raw(2) == Some(EarlyDepthFunction::LessOrEqual),
            EarlyDepthFunction::spec_from_raw(3) == Some(EarlyDepthFunction::Less),
    {
    }

    /// The raw `GPU_EARLYDEPTHFUNC` value of this variant.
    pub fn raw(self) -> (r: u8)
        ensures
            r == self.spec_raw(),
    {
        match self {
            EarlyDepthFunction::GreaterOrEqual => 0,
            EarlyDepthFunction::Greater => 1,
            EarlyDepthFunction::LessOrEqual => 2,
            EarlyDepthFunction::Less => 3,
        }
    }

    /// Encoding a variant and decoding the result gives the variant back, and a
    /// raw value decodes only to the variant that encodes it.
    pub proof fn lemma_raw_round_trip(self, value: u8)
        ensures
            EarlyDepthFunction::spec_from_raw(self.spec_raw()) == Some(self),
            EarlyDepthFunction::spec_from_raw(value) matches Some(e) ==> e.spec_raw() == value,
            EarlyDepthFunction::spec_from_raw(value) is None ==> forall|e: EarlyDepthFunction| e.spec_raw() != value,
    {
    }
}

impl TryFrom<u8> for EarlyDepthFunction {
    type Error = String;

    fn try_from(value: u8) -> (r: Result<Self, String>)
        ensures
            match r {
                Ok(e) => EarlyDepthFunction::spec_from_raw(value) == Some(e),
                Err(s) => EarlyDepthFunction::spec_from_raw(value) is None && s@ == "invalid value for EarlyDepthFunction"@,
            },
    {
        match value {
            0 => Ok(EarlyDepthFunction::GreaterOrEqual),
            1 => Ok(EarlyDepthFunction::Greater),
            2 => Ok(EarlyDepthFunction::LessOrEqual),
            3 => Ok(EarlyDepthFunction::Less),
            _ => Err("invalid value for EarlyDepthFunction".to_string()),
        }
    }
}

impl vstd::std_specs::convert::TryFromSpecImpl<u8> for EarlyDepthFunction {
    open spec fn obeys_try_from_spec() -> bool {
        false
    }

    open spec fn try_from_spec(value: u8) -> Result<Self, String> {
        match EarlyDepthFunction::spec_from_raw(value) {
            Some(e) => Ok(e),
            None => Err(arbitrary()),
        }
    }
}

/// Scissor test modes.
#[derive(Clone, Copy, Debug, PartialEq, Eq)]
pub enum ScissorMode {
    /// Disable.
    Disable,
    /// Exclude pixels inside the scissor box.
    Invert,
    /// Exclude pixels outside of the scissor box.
    Normal,
}

impl ScissorMode {
    /// The raw `GPU_SCISSORMODE` value that encodes this variant.
    pub open spec fn spec_raw(self) -> u8 {
        match self {
            ScissorMode::Disable => 0,
            ScissorMode::Invert => 1,
            ScissorMode::Normal => 3,
        }
    }

    /// The variant that the raw value `value` encodes, if any.
    pub open spec fn spec_from_raw(value: u8) -> Option<Self> {
        if value == 0 {
            Some(ScissorMode::Disable)
        } else if value == 1 {
            Some(ScissorMode::Invert)
        } else if value == 3 {
            Some(ScissorMode::Normal)
        } else {
            None
        }
    }

    /// Each variant encodes to the `GPU_SCISSORMODE` value that the hardware defines for it, and each of these values decodes to that variant.
    pub proof fn lemma_raw_values()
        ensures
            ScissorMode::Disable.spec_raw() == 0,
            ScissorMode::Invert.spec_raw() == 1,
            ScissorMode::Normal.spec_raw() == 3,
            ScissorMode::spec_from_raw(0) == Some(ScissorMode::Disable),
            ScissorMode::spec_from_raw(1) == Some(ScissorMode::Invert),
            ScissorMode::spec_from_raw(3) == Some(ScissorMode::Normal),
    {
    }

    /// The raw `GPU_SCISSORMODE` value of this variant.
    pub fn raw(self) -> (r: u8)
        ensures
            r == self.spec_raw(),
    {
        match self {
            ScissorMode::Disable => 0,
            ScissorMode::Invert => 1,
            ScissorMode::Normal => 3,
        }
    }

    /// Encoding a variant and decoding the result gives the variant back, and a
    /// raw value decodes only to the variant that encodes it.
    pub proof fn lemma_raw_round_trip(self, value: u8)
        ensures
            ScissorMode::spec_from_raw(self.spec_raw()) == Some(self),
            ScissorMode::spec_from_raw(value) matches Some(e) ==> e.spec_raw() == value,
            ScissorMode::spec_from_raw(value) is None ==> forall|e: ScissorMode| e.spec_raw() != value,
    {
    }
}

impl TryFrom<u8> for ScissorMode {
    type Error = String;

    fn try_from(value: u8) -> (r: Result<Self, String>)
        ensures
            match r {
                Ok(e) => ScissorMode::spec_from_raw(value) == Some(e),
                Err(s) => ScissorMode::spec_from_raw(value) is None && s@ == "invalid value for ScissorMode"@,
            },
    {
        match value {
            0 => Ok(ScissorMode::Disable),
            1 => Ok(ScissorMode::Invert),
            3 => Ok(ScissorMode::Normal),
            _ => Err("invalid value for ScissorMode".to_string()),
        }
    }
}

impl vstd::std_specs::convert::TryFromSpecImpl<u8> for ScissorMode {
    open spec fn obeys_try_from_spec() -> bool {
        false
    }

    open spec fn try_from_spec(value: u8) -> Result<Self, String> {
        match ScissorMode::spec_from_raw(value) {
            Some(e) => Ok(e),
            None => Err(arbitrary()),
        }
    }
}

/// Stencil operations.
#[derive(Clone, Copy, Debug, PartialEq, Eq)]
pub enum StencilOperation {
    /// Keep old value. (old_stencil)
    Keep,
    /// Zero. (0)
    Zero,
    /// Replace value. (ref)
    Replace,
    /// Increment value. (old_stencil + 1 saturated to [0, 255])
    Increment,
    /// Decrement value. (old_stencil - 1 saturated to [0, 255])
    Decrement,
    /// Invert value. (~old_stencil)
    Invert,
    /// Increment value. (old_stencil + 1)
    IncrementWrap,
    /// Decrement value. (old_stencil - 1)
    DecrementWrap,
}

impl StencilOperation {
    /// The raw `GPU_STENCILOP` value that encodes this variant.
    pub open spec fn spec_raw(self) -> u8 {
        match self {
            StencilOperation::Keep => 0,
            StencilOperation::Zero => 1,
            StencilOperation::Replace => 2,
            StencilOperation::Increment => 3,
            StencilOperation::Decrement => 4,
            StencilOperation::Invert => 5,
            StencilOperation::IncrementWrap => 6,
            StencilOperation::DecrementWrap => 7,
        }
    }

    /// The variant that the raw value `value` encodes, if any.
    pub open spec fn spec_from_raw(value: u8) -> Option<Self> {
        if value == 0 {
            Some(StencilOperation::Keep)
        } else if value == 1 {
            Some(StencilOperation::Zero)
        } else if value == 2 {
            Some(StencilOperation::Replace)
        } else if value == 3 {
            Some(StencilOperation::Increment)
        } else if value == 4 {
            Some(StencilOperation::Decrement)
        } else if value == 5 {
            Some(StencilOperation::Invert)
        } else if value == 6 {
            Some(StencilOperation::IncrementWrap)
        } else if value == 7 {
            Some(StencilOperation::DecrementWrap)
        } else {
            None
        }
    }

    /// Each variant encodes to the `GPU_STENCILOP` value that the hardware defines for it, and each of these values decodes to that variant.
    pub proof fn lemma_raw_values()
        ensures
            StencilOperation::Keep.spec_raw() == 0,
            StencilOperation::Zero.spec_raw() == 1,
            StencilOperation::Replace.spec_raw() == 2,
            StencilOperation::Increment.spec_raw() == 3,
            StencilOperation::Decrement.spec_raw() == 4,
            StencilOperation::Invert.spec_raw() == 5,
            StencilOperation::IncrementWrap.spec_raw() == 6,
            StencilOperation::DecrementWrap.spec_raw() == 7,
            StencilOperation::spec_from_raw(0) == Some(StencilOperation::Keep),
            StencilOperation::spec_from_raw(1) == Some(StencilOperation::Zero),
            StencilOperation::spec_from_raw(2) == Some(StencilOperation::Replace),
            StencilOperation::spec_from_raw(3) == Some(StencilOperation::Increment),
            StencilOperation::spec_from_raw(4) == Some(StencilOperation::Decrement),
            StencilOperation::spec_from_raw(5) == Some(StencilOperation::Invert),
            StencilOperation::spec_from_raw(6) == Some(StencilOperation::IncrementWrap),
            StencilOperation::spec_from_raw(7) == Some(StencilOperation::DecrementWrap),
    {
    }

    /// The raw `GPU_STENCILOP` value of this variant.
    pub fn raw(self) -> (r: u8)
        ensures
            r == self.spec_raw(),
    {
        match self {
            StencilOperation::Keep => 0,
            StencilOperation::Zero => 1,
            StencilOperation::Replace => 2,
            StencilOperation::Increment => 3,
            StencilOperation::Decrement => 4,
            StencilOperation::Invert => 5,
            StencilOperation::IncrementWrap => 6,
            StencilOperation::DecrementWrap => 7,
        }
    }

    /// Encoding a variant and decoding the result gives the variant back, and a
    /// raw value decodes only to the variant that encodes it.
    pub proof fn lemma_raw_round_trip(self, value: u8)
        ensures
            StencilOperation::spec_from_raw(self.spec_raw()) == Some(self),
            StencilOperation::spec_from_raw(value) matches Some(e) ==> e.spec_raw() == value,
            StencilOperation::spec_from_raw(value) is None ==> forall|e: StencilOperation| e.spec_raw() != value,
    {
    }
}

impl TryFrom<u8> for StencilOperation {
    type Error = String;

    fn try_from(value: u8) -> (r: Result<Self, String>)
        ensures
            match r {
                Ok(e) => StencilOperation::spec_from_raw(value) == Some(e),
                Err(s) => StencilOperation::spec_from_raw(value) is None && s@ == "invalid value for StencilOperation"@,
            },
    {
        match value {
            0 => Ok(StencilOperation::Keep),
            1 => Ok(StencilOperation::Zero),
            2 => Ok(StencilOperation::Replace),
            3 => Ok(StencilOperation::Increment),
            4 => Ok(StencilOperation::Decrement),
            5 => Ok(StencilOperation::Invert),
            6 => Ok(StencilOperation::IncrementWrap),
            7 => Ok(StencilOperation::DecrementWrap),
            _ => Err("invalid value for StencilOperation".to_string()),
        }
    }
}

impl vstd::std_specs::convert::TryFromSpecImpl<u8> for StencilOperation {
    open spec fn obeys_try_from_spec() -> bool {
        false
    }

    open spec fn try_from_spec(value: u8) -> Result<Self, String> {
        match StencilOperation::spec_from_raw(value) {
            Some(e) => Ok(e),
            None => Err(arbitrary()),
        }
    }
}

/// Pixel write mask.
#[derive(Clone, Copy, Debug, PartialEq, Eq)]
pub enum WriteMask {
    /// Write red.
    Red,
    /// Write green.
    Green,
    /// Write blue.
    Blue,
    /// Write alpha.
    Alpha,
    /// Write depth.
    Depth,
    /// Write all color components.
    Color,
    /// Write all components.
    All,
}

impl WriteMask {
    /// The raw `GPU_WRITEMASK` value that encodes this variant.
    pub open spec fn spec_raw(self) -> u8 {
        match self {
            WriteMask::Red => 0x01,
            WriteMask::Green => 0x02,
            WriteMask::Blue => 0x04,
            WriteMask::Alpha => 0x08,
            WriteMask::Depth => 0x10,
            WriteMask::Color => 0x0F,
            WriteMask::All => 0x1F,
        }
    }

    /// The variant that the raw value `value` encodes, if any.
    pub open spec fn spec_from_raw(value: u8) -> Option<Self> {
        if value == 0x01 {
            Some(WriteMask::Red)
        } else if value == 0x02 {
            Some(WriteMask::Green)
        } else if value == 0x04 {
            Some(WriteMask::Blue)
        } else if value == 0x08 {
            Some(WriteMask::Alpha)
        } else if value == 0x10 {
            Some(WriteMask::Depth)
        } else if value == 0x0F {
            Some(WriteMask::Color)
        } else if value == 0x1F {
            Some(WriteMask::All)
        } else {
            None
        }
    }

    /// Each variant encodes to the `GPU_WRITEMASK` value that the hardware defines for it, and each of these values decodes to that variant.
    pub proof fn lemma_raw_values()
        ensures
            WriteMask::Red.spec_raw() == 0x01,
            WriteMask::Green.spec_raw() == 0x02,
            WriteMask::Blue.spec_raw() == 0x04,
            WriteMask::Alpha.spec_raw() == 0x08,
            WriteMask::Depth.spec_raw() == 0x10,
            WriteMask::Color.spec_raw() == 0x0F,
            WriteMask::All.spec_raw() == 0x1F,
            WriteMask::spec_from_raw(0x01) == Some(WriteMask::Red),
            WriteMask::spec_from_raw(0x02) == Some(WriteMask::Green),
            WriteMask::spec_from_raw(0x04) == Some(WriteMask::Blue),
            WriteMask::spec_from_raw(0x08) == Some(WriteMask::Alpha),
            WriteMask::spec_from_raw(0x10) == Some(WriteMask::Depth),
            WriteMask::spec_from_raw(0x0F) == Some(WriteMask::Color),
            WriteMask::spec_from_raw(0x1F) == Some(WriteMask::All),
    {
    }

    /// The raw `GPU_WRITEMASK` value of this variant.
    pub fn raw(self) -> (r: u8)
        ensures
            r == self.spec_raw(),
    {
        match self {
            WriteMask::Red => 0x01,
            WriteMask::Green => 0x02,
            WriteMask::Blue => 0x04,
            WriteMask::Alpha => 0x08,
            WriteMask::Depth => 0x10,
            WriteMask::Color => 0x0F,
            WriteMask::All => 0x1F,
        }
    }

    /// Encoding a variant and decoding the result gives the variant back, and a
    /// raw value decodes only to the variant that encodes it.
    pub proof fn lemma_raw_round_trip(self, value: u8)
        ensures
            WriteMask::spec_from_raw(self.spec_raw()) == Some(self),
            WriteMask::spec_from_raw(value) matches Some(e) ==> e.spec_raw() == value,
            WriteMask::spec_from_raw(value) is None ==> forall|e: WriteMask| e.spec_raw() != value,
    {
    }
}

impl TryFrom<u8> for WriteMask {
    type Error = String;

    fn try_from(value: u8) -> (r: Result<Self, String>)
        ensures
            match r {
                Ok(e) => WriteMask::spec_from_raw(value) == Some(e),
                Err(s) => WriteMask::spec_from_raw(value) is None && s@ == "invalid value for WriteMask"@,
            },
    {
        match value {
            0x01 => Ok(WriteMask::Red),
            0x02 => Ok(WriteMask::Green),
            0x04 => Ok(WriteMask::Blue),
            0x08 => Ok(WriteMask::Alpha),
            0x10 => Ok(WriteMask::Depth),
            0x0F => Ok(WriteMask::Color),
            0x1F => Ok(WriteMask::All),
            _ => Err("invalid value for WriteMask".to_string()),
        }
    }
}

impl vstd::std_specs::convert::TryFromSpecImpl<u8> for WriteMask {
    open spec fn obeys_try_from_spec() -> bool {
        false
    }

    open spec fn try_from_spec(value: u8) -> Result<Self, String> {
        match WriteMask::spec_from_raw(value) {
            Some(e) => Ok(e),
            None => Err(arbitrary()),
        }
    }
}

/// Blend modes.
#[derive(Clone, Copy, Debug, PartialEq, Eq)]
pub enum BlendEquation {
    /// Add colors.
    Add,
    /// Subtract colors.
    Subtract,
    /// Reverse-subtract colors.
    ReverseSubtract,
    /// Use the minimum color.
    Min,
    /// Use the maximum color.
    Max,
}

impl BlendEquation {
    /// The raw `GPU_BLENDEQUATION` value that encodes this variant.
    pub open spec fn spec_raw(self) -> u8 {
        match self {
            BlendEquation::Add => 0,
            BlendEquation::Subtract => 1,
            BlendEquation::ReverseSubtract => 2,
            BlendEquation::Min => 3,
            BlendEquation::Max => 4,
        }
    }

    /// The variant that the raw value `value` encodes, if any.
    pub open spec fn spec_from_raw(value: u8) -> Option<Self> {
        if value == 0 {
            Some(BlendEquation::Add)
        } else if value == 1 {
            Some(BlendEquation::Subtract)
        } else if value == 2 {
            Some(BlendEquation::ReverseSubtract)
        } else if value == 3 {
            Some(BlendEquation::Min)
        } else if value == 4 {
            Some(BlendEquation::Max)
        } else {
            None
        }
    }

    /// Each variant encodes to the `GPU_BLENDEQUATION` value that the hardware defines for it, and each of these values decodes to that variant.
    pub proof fn lemma_raw_values()
        ensures
            BlendEquation::Add.spec_raw() == 0,
            BlendEquation::Subtract.spec_raw() == 1,
            BlendEquation::ReverseSubtract.spec_raw() == 2,
            BlendEquation::Min.spec_raw() == 3,
            BlendEquation::Max.spec_raw() == 4,
            BlendEquation::spec_from_raw(0) == Some(BlendEquation::Add),
            BlendEquation::spec_from_raw(1) == Some(BlendEquation::Subtract),
            BlendEquation::spec_from_raw(2) == Some(BlendEquation::ReverseSubtract),
            BlendEquation::spec_from_raw(3) == Some(BlendEquation::Min),
            BlendEquation::spec_from_raw(4) == Some(BlendEquation::Max),
    {
    }

    /// The raw `GPU_BLENDEQUATION` value of this variant.
    pub fn raw(self) -> (r: u8)
        ensures
            r == self.spec_raw(),
    {
        match self {
            BlendEquation::Add => 0,
            BlendEquation::Subtract => 1,
            BlendEquation::ReverseSubtract => 2,
            BlendEquation::Min => 3,
            BlendEquation::Max => 4,
        }
    }

    /// Encoding a variant and decoding the result gives the variant back, and a
    /// raw value decodes only to the variant that encodes it.
    pub proof fn lemma_raw_round_trip(self, value: u8)
        ensures
            BlendEquation::spec_from_raw(self.spec_raw()) == Some(self),
            BlendEquation::spec_from_raw(value) matches Some(e) ==> e.spec_raw() == value,
            BlendEquation::spec_from_raw(value) is None ==> forall|e: BlendEquation| e.spec_raw() != value,
    {
    }
}

impl TryFrom<u8> for BlendEquation {
    type Error = String;

    fn try_from(value: u8) -> (r: Result<Self, String>)
        ensures
            match r {
                Ok(e) => BlendEquation::spec_from_raw(value) == Some(e),
                Err(s) => BlendEquation::spec_from_raw(value) is None && s@ == "invalid value for BlendEquation"@,
            },
    {
        match value {
            0 => Ok(BlendEquation::Add),
            1 => Ok(BlendEquation::Subtract),
            2 => Ok(BlendEquation::ReverseSubtract),
            3 => Ok(BlendEquation::Min),
            4 => Ok(BlendEquation::Max),
            _ => Err("invalid value for BlendEquation".to_string()),
        }
    }
}

impl vstd::std_specs::convert::TryFromSpecImpl<u8> for BlendEquation {
    open spec fn obeys_try_from_spec() -> bool {
        false
    }

    open spec fn try_from_spec(value: u8) -> Result<Self, String> {
        match BlendEquation::spec_from_raw(value) {
            Some(e) => Ok(e),
            None => Err(arbitrary()),
        }
    }
}

/// Blend factors.
#[derive(Clone, Copy, Debug, PartialEq, Eq)]
pub enum BlendFactor {
    /// Zero.
    Zero,
    /// One.
    One,
    /// Source color.
    SrcColor,
    /// Source color - 1.
    OneMinusSrcColor,
    /// Destination color.
    DstColor,
    /// Destination color - 1.
    OneMinusDstColor,
    /// Source alpha.
    SrcAlpha,
    /// Source alpha - 1.
    OneMinusSrcAlpha,
    /// Destination alpha.
    DstAlpha,
    /// Destination alpha - 1.
    OneMinusDstAlpha,
    /// Constant color.
    ConstantColor,
    /// Constant color - 1.
    OneMinusConstantColor,
    /// Constant alpha.
    ConstantAlpha,
    /// Constant alpha - 1.
    OneMinusConstantAlpha,
    /// Saturated alpha.
    SrcAlphaSaturate,
}

impl BlendFactor {
    /// The raw `GPU_BLENDFACTOR` value that encodes this variant.
    pub open spec fn spec_raw(self) -> u8 {
        match self {
            BlendFactor::Zero => 0,
            BlendFactor::One => 1,
            BlendFactor::SrcColor => 2,
            BlendFactor::OneMinusSrcColor => 3,
            BlendFactor::DstColor => 4,
            BlendFactor::OneMinusDstColor => 5,
            BlendFactor::SrcAlpha => 6,
            BlendFactor::OneMinusSrcAlpha => 7,
            BlendFactor::DstAlpha => 8,
            BlendFactor::OneMinusDstAlpha => 9,
            BlendFactor::ConstantColor => 10,
            BlendFactor::OneMinusConstantColor => 11,
            BlendFactor::ConstantAlpha => 12,
            BlendFactor::OneMinusConstantAlpha => 13,
            BlendFactor::SrcAlphaSaturate => 14,
        }
    }

    /// The variant that the raw value `value` encodes, if any.
    pub open spec fn spec_from_raw(value: u8) -> Option<Self> {
        if value == 0 {
            Some(BlendFactor::Zero)
        } else if value == 1 {
            Some(BlendFactor::One)
        } else if value == 2 {
            Some(BlendFactor::SrcColor)
        } else if value == 3 {
            Some(BlendFactor::OneMinusSrcColor)
        } else if value == 4 {
            Some(BlendFactor::DstColor)
        } else if value == 5 {
            Some(BlendFactor::OneMinusDstColor)
        } else if value == 6 {
            Some(BlendFactor::SrcAlpha)
        } else if value == 7 {
            Some(BlendFactor::OneMinusSrcAlpha)
        } else if value == 8 {
            Some(BlendFactor::DstAlpha)
        } else if value == 9 {
            Some(BlendFactor::OneMinusDstAlpha)
        } else if value == 10 {
            Some(BlendFactor::ConstantColor)
        } else if value == 11 {
            Some(BlendFactor::OneMinusConstantColor)
        } else if value == 12 {
            Some(BlendFactor::ConstantAlpha)
        } else if value == 13 {
            Some(BlendFactor::OneMinusConstantAlpha)
        } else if value == 14 {
            Some(BlendFactor::SrcAlphaSaturate)
        } else {
            None
        }
    }

    /// Each variant encodes to the `GPU_BLENDFACTOR` value that the hardware defines for it, and each of these values decodes to that variant.
    pub proof fn lemma_raw_values()
        ensures
            BlendFactor::Zero.spec_raw() == 0,
            BlendFactor::One.spec_raw() == 1,
            BlendFactor::SrcColor.spec_raw() == 2,
            BlendFactor::OneMinusSrcColor.spec_raw() == 3,
            BlendFactor::DstColor.spec_raw() == 4,
            BlendFactor::OneMinusDstColor.spec_raw() == 5,
            BlendFactor::SrcAlpha.spec_raw() == 6,
            BlendFactor::OneMinusSrcAlpha.spec_raw() == 7,
            BlendFactor::DstAlpha.spec_raw() == 8,
            BlendFactor::OneMinusDstAlpha.spec_raw() == 9,
            BlendFactor::ConstantColor.spec_raw() == 10,
            BlendFactor::OneMinusConstantColor.spec_raw() == 11,
            BlendFactor::ConstantAlpha.spec_raw() == 12,
            BlendFactor::OneMinusConstantAlpha.spec_raw() == 13,
            BlendFactor::SrcAlphaSaturate.spec_raw() == 14,
            BlendFactor::spec_from_raw(0) == Some(BlendFactor::Zero),
            BlendFactor::spec_from_raw(1) == Some(BlendFactor::One),
            BlendFactor::spec_from_raw(2) == Some(BlendFactor::SrcColor),
            BlendFactor::spec_from_raw(3) == Some(BlendFactor::OneMinusSrcColor),
            BlendFactor::spec_from_raw(4) == Some(BlendFactor::DstColor),
            BlendFactor::spec_from_raw(5) == Some(BlendFactor::OneMinusDstColor),
            BlendFactor::spec_from_raw(6) == Some(BlendFactor::SrcAlpha),
            BlendFactor::spec_from_raw(7) == Some(BlendFactor::OneMinusSrcAlpha),
            BlendFactor::spec_from_raw(8) == Some(BlendFactor::DstAlpha),
            BlendFactor::spec_from_raw(9) == Some(BlendFactor::OneMinusDstAlpha),
            BlendFactor::spec_from_raw(10) == Some(BlendFactor::ConstantColor),
            BlendFactor::spec_from_raw(11) == Some(BlendFactor::OneMinusConstantColor),
            BlendFactor::spec_from_raw(12) == Some(BlendFactor::ConstantAlpha),
            BlendFactor::spec_from_raw(13) == Some(BlendFactor::OneMinusConstantAlpha),
            BlendFactor::spec_from_raw(14) == Some(BlendFactor::SrcAlphaSaturate),
    {
    }

    /// The raw `GPU_BLENDFACTOR` value of this variant.
    pub fn raw(self) -> (r: u8)
        ensures
            r == self.spec_raw(),
    {
        match self {
            BlendFactor::Zero => 0,
            BlendFactor::One => 1,
            BlendFactor::SrcColor => 2,
            BlendFactor::OneMinusSrcColor => 3,
            BlendFactor::DstColor => 4,
            BlendFactor::OneMinusDstColor => 5,
            BlendFactor::SrcAlpha => 6,
            BlendFactor::OneMinusSrcAlpha => 7,
            BlendFactor::DstAlpha => 8,
            BlendFactor::OneMinusDstAlpha => 9,
            BlendFactor::ConstantColor => 10,
            BlendFactor::OneMinusConstantColor => 11,
            BlendFactor::ConstantAlpha => 12,
            BlendFactor::OneMinusConstantAlpha => 13,
            BlendFactor::SrcAlphaSaturate => 14,
        }
    }

    /// Encoding a variant and decoding the result gives the variant back, and a
    /// raw value decodes only to the variant that encodes it.
    pub proof fn lemma_raw_round_trip(self, value: u8)
        ensures
            BlendFactor::spec_from_raw(self.spec_raw()) == Some(self),
            BlendFactor::spec_from_raw(value) matches Some(e) ==> e.spec_raw() == value,
            BlendFactor::spec_from_raw(value) is None ==> forall|e: BlendFactor| e.spec_raw() != value,
    {
    }
}

impl TryFrom<u8> for BlendFactor {
    type Error = String;

    fn try_from(value: u8) -> (r: Result<Self, String>)
        ensures
            match r {
                Ok(e) => BlendFactor::spec_from_raw(value) == Some(e),
                Err(s) => BlendFactor::spec_from_raw(value) is None && s@ == "invalid value for BlendFactor"@,
            },
    {
        match value {
            0 => Ok(BlendFactor::Zero),
            1 => Ok(BlendFactor::One),
            2 => Ok(BlendFactor::SrcColor),
            3 => Ok(BlendFactor::OneMinusSrcColor),
            4 => Ok(BlendFactor::DstColor),
            5 => Ok(BlendFactor::OneMinusDstColor),
            6 => Ok(BlendFactor::SrcAlpha),
            7 => Ok(BlendFactor::OneMinusSrcAlpha),
            8 => Ok(BlendFactor::DstAlpha),
            9 => Ok(BlendFactor::OneMinusDstAlpha),
            10 => Ok(BlendFactor::ConstantColor),
            11 => Ok(BlendFactor::OneMinusConstantColor),
            12 => Ok(BlendFactor::ConstantAlpha),
            13 => Ok(BlendFactor::OneMinusConstantAlpha),
            14 => Ok(BlendFactor::SrcAlphaSaturate),
            _ => Err("invalid value for BlendFactor".to_string()),
        }
    }
}

impl vstd::std_specs::convert::TryFromSpecImpl<u8> for BlendFactor {
    open spec fn obeys_try_from_spec() -> bool {
        false
    }

    open spec fn try_from_spec(value: u8) -> Result<Self, String> {
        match BlendFactor::spec_from_raw(value) {
            Some(e) => Ok(e),
            None => Err(arbitrary()),
        }
    }
}

/// Logical operations.
#[derive(Clone, Copy, Debug, PartialEq, Eq)]
pub enum LogicOperation {
    /// Clear.
    Clear,
    /// Bitwise AND.
    And,
    /// Reverse bitwise AND.
    AndReverse,
    /// Copy.
    Copy,
    /// Set.
    SetAll,
    /// Inverted copy.
    CopyInverted,
    /// No operation.
    Noop,
    /// Invert.
    Invert,
    /// Bitwise NAND.
    Nand,
    /// Bitwise OR.
    Or,
    /// Bitwise NOR.
    Nor,
    /// Bitwise XOR.
    Xor,
    /// Equivalent.
    Equiv,
    /// Inverted bitwise AND.
    AndInverted,
    /// Reverse bitwise OR.
    OrReverse,
    /// Inverted bitwise OR.
    OrInverted,
}

impl LogicOperation {
    /// The raw `GPU_LOGICOP` value that encodes this variant.
    pub open spec fn spec_raw(self) -> u8 {
        match self {
            LogicOperation::Clear => 0,
            LogicOperation::And => 1,
            LogicOperation::AndReverse => 2,
            LogicOperation::Copy => 3,
            LogicOperation::SetAll => 4,
            LogicOperation::CopyInverted => 5,
            LogicOperation::Noop => 6,
            LogicOperation::Invert => 7,
            LogicOperation::Nand => 8,
            LogicOperation::Or => 9,
            LogicOperation::Nor => 10,
            LogicOperation::Xor => 11,
            LogicOperation::Equiv => 12,
            LogicOperation::AndInverted => 13,
            LogicOperation::OrReverse => 14,
            LogicOperation::OrInverted => 15,
        }
    }

    /// The variant that the raw value `value` encodes, if any.
    pub open spec fn spec_from_raw(value: u8) -> Option<Self> {
        if value == 0 {
            Some(LogicOperation::Clear)
        } else if value == 1 {
            Some(LogicOperation::And)
        } else if value == 2 {
            Some(LogicOperation::AndReverse)
        } else if value == 3 {
            Some(LogicOperation::Copy)
        } else if value == 4 {
            Some(LogicOperation::SetAll)
        } else if value == 5 {
            Some(LogicOperation::CopyInverted)
        } else if value == 6 {
            Some(LogicOperation::Noop)
        } else if value == 7 {
            Some(LogicOperation::Invert)
        } else if value == 8 {
            Some(LogicOperation::Nand)
        } else if value == 9 {
            Some(LogicOperation::Or)
        } else if value == 10 {
            Some(LogicOperation::Nor)
        } else if value == 11 {
            Some(LogicOperation::Xor)
        } else if value == 12 {
            Some(LogicOperation::Equiv)
        } else if value == 13 {
            Some(LogicOperation::AndInverted)
        } else if value == 14 {
            Some(LogicOperation::OrReverse)
        } else if value == 15 {
            Some(LogicOperation::OrInverted)
        } else {
            None
        }
    }

    /// Each variant encodes to the `GPU_LOGICOP` value that the hardware defines for it, and each of these values decodes to that variant.
    pub proof fn lemma_raw_values()
        ensures
            LogicOperation::Clear.spec_raw() == 0,
            LogicOperation::And.spec_raw() == 1,
            LogicOperation::AndReverse.spec_raw() == 2,
            LogicOperation::Copy.spec_raw() == 3,
            LogicOperation::SetAll.spec_raw() == 4,
            LogicOperation::CopyInverted.spec_raw() == 5,
            LogicOperation::Noop.spec_raw() == 6,
            LogicOperation::Invert.spec_raw() == 7,
            LogicOperation::Nand.spec_raw() == 8,
            LogicOperation::Or.spec_raw() == 9,
            LogicOperation::Nor.spec_raw() == 10,
            LogicOperation::Xor.spec_raw() == 11,
            LogicOperation::Equiv.spec_raw() == 12,
            LogicOperation::AndInverted.spec_raw() == 13,
            LogicOperation::OrReverse.spec_raw() == 14,
            LogicOperation::OrInverted.spec_raw() == 15,
            LogicOperation::spec_from_raw(0) == Some(LogicOperation::Clear),
            LogicOperation::spec_from_raw(1) == Some(LogicOperation::And),
            LogicOperation::spec_from_raw(2) == Some(LogicOperation::AndReverse),
            LogicOperation::spec_from_raw(3) == Some(LogicOperation::Copy),
            LogicOperation::spec_from_raw(4) == Some(LogicOperation::SetAll),
            LogicOperation::spec_from_raw(5) == Some(LogicOperation::CopyInverted),
            LogicOperation::spec_from_raw(6) == Some(LogicOperation::Noop),
            LogicOperation::spec_from_raw(7) == Some(LogicOperation::Invert),
            LogicOperation::spec_from_raw(8) == Some(LogicOperation::Nand),
            LogicOperation::spec_from_raw(9) == Some(LogicOperation::Or),
            LogicOperation::spec_from_raw(10) == Some(LogicOperation::Nor),
            LogicOperation::spec_from_raw(11) == Some(LogicOperation::Xor),
            LogicOperation::spec_from_raw(12) == Some(LogicOperation::Equiv),
            LogicOperation::spec_from_raw(13) == Some(LogicOperation::AndInverted),
            LogicOperation::spec_from_raw(14) == Some(LogicOperation::OrReverse),
            LogicOperation::spec_from_raw(15) == Some(LogicOperation::OrInverted),
    {
    }

    /// The raw `GPU_LOGICOP` value of this variant.
    pub fn raw(self) -> (r: u8)
        ensures
            r == self.spec_raw(),
    {
        match self {
            LogicOperation::Clear => 0,
            LogicOperation::And => 1,
            LogicOperation::AndReverse => 2,
            LogicOperation::Copy => 3,
            LogicOperation::SetAll => 4,
            LogicOperation::CopyInverted => 5,
            LogicOperation::Noop => 6,
            LogicOperation::Invert => 7,
            LogicOperation::Nand => 8,
            LogicOperation::Or => 9,
            LogicOperation::Nor => 10,
            LogicOperation::Xor => 11,
            LogicOperation::Equiv => 12,
            LogicOperation::AndInverted => 13,
            LogicOperation::OrReverse => 14,
            LogicOperation::OrInverted => 15,
        }
    }

    /// Encoding a variant and decoding the result gives the variant back, and a
    /// raw value decodes only to the variant that encodes it.
    pub proof fn lemma_raw_round_trip(self, value: u8)
        ensures
            LogicOperation::spec_from_raw(self.spec_raw()) == Some(self),
            LogicOperation::spec_from_raw(value) matches Some(e) ==> e.spec_raw() == value,
            LogicOperation::spec_from_raw(value) is None ==> forall|e: LogicOperation| e.spec_raw() != value,
    {
    }
}

impl TryFrom<u8> for LogicOperation {
    type Error = String;

    fn try_from(value: u8) -> (r: Result<Self, String>)
        ensures
            match r {
                Ok(e) => LogicOperation::spec_from_raw(value) == Some(e),
                Err(s) => LogicOperation::spec_from_raw(value) is None && s@ == "invalid value for LogicOperation"@,
            },
    {
        match value {
            0 => Ok(LogicOperation::Clear),
            1 => Ok(LogicOperation::And),
            2 => Ok(LogicOperation::AndReverse),
            3 => Ok(LogicOperation::Copy),
            4 => Ok(LogicOperation::SetAll),
            5 => Ok(LogicOperation::CopyInverted),
            6 => Ok(LogicOperation::Noop),
            7 => Ok(LogicOperation::Invert),
            8 => Ok(LogicOperation::Nand),
            9 => Ok(LogicOperation::Or),
            10 => Ok(LogicOperation::Nor),
            11 => Ok(LogicOperation::Xor),
            12 => Ok(LogicOperation::Equiv),
            13 => Ok(LogicOperation::AndInverted),
            14 => Ok(LogicOperation::OrReverse),
            15 => Ok(LogicOperation::OrInverted),
            _ => Err("invalid value for LogicOperation".to_string()),
        }
    }
}

impl vstd::std_specs::convert::TryFromSpecImpl<u8> for LogicOperation {
    open spec fn obeys_try_from_spec() -> bool {
        false
    }

    open spec fn try_from_spec(value: u8) -> Result<Self, String> {
        match LogicOperation::spec_from_raw(value) {
            Some(e) => Ok(e),
            None => Err(arbitrary()),
        }
    }
}

/// Cull modes.
#[derive(Clone, Copy, Debug, PartialEq, Eq)]
pub enum CullMode {
    /// Disabled.
    NoCull,
    /// Front, counter-clockwise.
    FrontCounterClockwise,
    /// Back, counter-clockwise.
    BackCounterClockwise,
}

impl CullMode {
    /// The raw `GPU_CULLMODE` value that encodes this variant.
    pub open spec fn spec_raw(self) -> u8 {
        match self {
            CullMode::NoCull => 0,
            CullMode::FrontCounterClockwise => 1,
            CullMode::BackCounterClockwise => 2,
        }
    }

    /// The variant that the raw value `value` encodes, if any.
    pub open spec fn spec_from_raw(value: u8) -> Option<Self> {
        if value == 0 {
            Some(CullMode::NoCull)
        } else if value == 1 {
            Some(CullMode::FrontCounterClockwise)
        } else if value == 2 {
            Some(CullMode::BackCounterClockwise)
        } else {
            None
        }
    }

    /// Each variant encodes to the `GPU_CULLMODE` value that the hardware defines for it, and each of these values decodes to that variant.
    pub proof fn lemma_raw_values()
        ensures
            CullMode::NoCull.spec_raw() == 0,
            CullMode::FrontCounterClockwise.spec_raw() == 1,
            CullMode::BackCounterClockwise.spec_raw() == 2,
            CullMode::spec_from_raw(0) == Some(CullMode::NoCull),
            CullMode::spec_from_raw(1) == Some(CullMode::FrontCounterClockwise),
            CullMode::spec_from_raw(2) == Some(CullMode::BackCounterClockwise),
    {
    }

    /// The raw `GPU_CULLMODE` value of this variant.
    pub fn raw(self) -> (r: u8)
        ensures
            r == self.spec_raw(),
    {
        match self {
            CullMode::NoCull => 0,
            CullMode::FrontCounterClockwise => 1,
            CullMode::BackCounterClockwise => 2,
        }
    }

    /// Encoding a variant and decoding the result gives the variant back, and a
    /// raw value decodes only to the variant that encodes it.
    pub proof fn lemma_raw_round_trip(self, value: u8)
        ensures
            CullMode::spec_from_raw(self.spec_raw()) == Some(self),
            CullMode::spec_from_raw(value) matches Some(e) ==> e.spec_raw() == value,
            CullMode::spec_from_raw(value) is None ==> forall|e: CullMode| e.spec_raw() != value,
    {
    }
}

impl TryFrom<u8> for CullMode {
    type Error = String;

    fn try_from(value: u8) -> (r: Result<Self, String>)
        ensures
            match r {
                Ok(e) => CullMode::spec_from_raw(value) == Some(e),
                Err(s) => CullMode::spec_from_raw(value) is None && s@ == "invalid value for CullMode"@,
            },
    {
        match value {
            0 => Ok(CullMode::NoCull),
            1 => Ok(CullMode::FrontCounterClockwise),
            2 => Ok(CullMode::BackCounterClockwise),
            _ => Err("invalid value for CullMode".to_string()),
        }
    }
}

impl vstd::std_specs::convert::TryFromSpecImpl<u8> for CullMode {
    open spec fn obeys_try_from_spec() -> bool {
        false
    }

    open spec fn try_from_spec(value: u8) -> Result<Self, String> {
        match CullMode::spec_from_raw(value) {
            Some(e) => Ok(e),
            None => Err(arbitrary()),
        }
    }
}

/// Fragment operation modes.
#[derive(Clone, Copy, Debug, PartialEq, Eq)]
pub enum FragmentOperationMode {
    /// OpenGL mode.
    Gl,
    /// Gas mode (?).
    GasAcc,
    /// Shadow mode (?).
    Shadow,
}

impl FragmentOperationMode {
    /// The raw `GPU_FRAGOPMODE` value that encodes this variant.
    pub open spec fn spec_raw(self) -> u8 {
        match self {
            FragmentOperationMode::Gl => 0,
            FragmentOperationMode::GasAcc => 1,
            FragmentOperationMode::Shadow => 3,
        }
    }

    /// The variant that the raw value `value` encodes, if any.
    pub open spec fn spec_from_raw(value: u8) -> Option<Self> {
        if value == 0 {
            Some(FragmentOperationMode::Gl)
        } else if value == 1 {
            Some(FragmentOperationMode::GasAcc)
        } else if value == 3 {
            Some(FragmentOperationMode::Shadow)
        } else {
            None
        }
    }

    /// Each variant encodes to the `GPU_FRAGOPMODE` value that the hardware defines for it, and each of these values decodes to that variant.
    pub proof fn lemma_raw_values()
        ensures
            FragmentOperationMode::Gl.spec_raw() == 0,
            FragmentOperationMode::GasAcc.spec_raw() == 1,
            FragmentOperationMode::Shadow.spec_raw() == 3,
            FragmentOperationMode::spec_from_raw(0) == Some(FragmentOperationMode::Gl),
            FragmentOperationMode::spec_from_raw(1) == Some(FragmentOperationMode::GasAcc),
            FragmentOperationMode::spec_from_raw(3) == Some(FragmentOperationMode::Shadow),
    {
    }

    /// The raw `GPU_FRAGOPMODE` value of this variant.
    pub fn raw(self) -> (r: u8)
        ensures
            r == self.spec_raw(),
    {
        match self {
            FragmentOperationMode::Gl => 0,
            FragmentOperationMode::GasAcc => 1,
            FragmentOperationMode::Shadow => 3,
        }
    }

    /// Encoding a variant and decoding the result gives the variant back, and a
    /// raw value decodes only to the variant that encodes it.
    pub proof fn lemma_raw_round_trip(self, value: u8)
        ensures
            FragmentOperationMode::spec_from_raw(self.spec_raw()) == Some(self),
            FragmentOperationMode::spec_from_raw(value) matches Some(e) ==> e.spec_raw() == value,
            FragmentOperationMode::spec_from_raw(value) is None ==> forall|e: FragmentOperationMode| e.spec_raw() != value,
    {
    }
}

impl TryFrom<u8> for FragmentOperationMode {
    type Error = String;

    fn try_from(value: u8) -> (r: Result<Self, String>)
        ensures
            match r {
                Ok(e) => FragmentOperationMode::spec_from_raw(value) == Some(e),
                Err(s) => FragmentOperationMode::spec_from_raw(value) is None && s@ == "invalid value for FragmentOperationMode"@,
            },
    {
        match value {
            0 => Ok(FragmentOperationMode::Gl),
            1 => Ok(FragmentOperationMode::GasAcc),
            3 => Ok(FragmentOperationMode::Shadow),
            _ => Err("invalid value for FragmentOperationMode".to_string()),
        }
    }
}

impl vstd::std_specs::convert::TryFromSpecImpl<u8> for FragmentOperationMode {
    open spec fn obeys_try_from_spec() -> bool {
        false
    }

    open spec fn try_from_spec(value: u8) -> Result<Self, String> {
        match FragmentOperationMode::spec_from_raw(value) {
            Some(e) => Ok(e),
            None => Err(arbitrary()),
        }
    }
}

} // verus!
