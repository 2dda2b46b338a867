//! Texture combiner support: the six combiner stages ("texture environments")
//! of the fragment pipeline.

use vstd::prelude::*;

use crate::error::Error;

verus! {

/// The number of texture combiner stages.
pub const TEXENV_COUNT: usize = 6;

/// One of the [`TEXENV_COUNT`] texture combiner stages.
#[derive(Clone, Copy, Debug, PartialEq, Eq, Structural)]
pub struct Stage(pub(crate) usize);

impl Stage {
    /// The stage number.
    pub closed spec fn spec_index(self) -> usize {
        self.0
    }

    /// The stage numbered `index`, if there is one.
    pub fn new(index: usize) -> (r: Option<Stage>)
        ensures
            r is Some <==> index < TEXENV_COUNT,
            r matches Some(s) ==> s.spec_index() == index,
    {
        if index < TEXENV_COUNT {
            Some(Stage(index))
        } else {
            None
        }
    }

    /// The stage number.
    pub fn index(self) -> (r: usize)
        ensures
            r == self.spec_index(),
            r < TEXENV_COUNT,
    {
        proof {
            use_type_invariant(self);
        }
        self.0
    }

    #[verifier::type_invariant]
    spec fn in_range(self) -> bool {
        self.0 < TEXENV_COUNT
    }
}

/// Whether to operate on colors, alpha values, or both.
#[derive(Clone, Copy, Debug, PartialEq, Eq, Structural)]
pub struct Mode(u32);

impl Mode {
    /// Operate on colors.
    #[allow(non_snake_case)]
    pub fn RGB() -> (r: Mode)
        ensures
            r.spec_bits() == 1,
            r == Mode::spec_from_bits(1),
    {
        Mode(1)
    }

    /// Operate on alpha values.
    #[allow(non_snake_case)]
    pub fn ALPHA() -> (r: Mode)
        ensures
            r.spec_bits() == 2,
            r == Mode::spec_from_bits(2),
    {
        Mode(2)
    }

    /// Operate on both.
    #[allow(non_snake_case)]
    pub fn BOTH() -> (r: Mode)
        ensures
            r.spec_bits() == 3,
            r == Mode::spec_from_bits(3),
    {
        Mode(3)
    }

    /// The mode with exactly the bits `bits`.
    pub closed spec fn spec_from_bits(bits: u32) -> Mode {
        Mode(bits)
    }

    /// The raw `C3D_TexEnvMode` bits.
    pub closed spec fn spec_bits(self) -> u32 {
        self.0
    }

    /// Whether every bit of `other` is set in `self`.
    pub open spec fn spec_contains(self, other: Mode) -> bool {
        self.spec_bits() & other.spec_bits() == other.spec_bits()
    }

    /// The raw `C3D_TexEnvMode` bits.
    pub fn bits(&self) -> (r: u32)
        ensures
            r == self.spec_bits(),
    {
        self.0
    }

    /// Whether every bit of `other` is set in `self`.
    pub fn contains(&self, other: Mode) -> (r: bool)
        ensures
            r == self.spec_contains(other),
    {
        self.0 & other.0 == other.0
    }
}

/// Color-only, alpha-only and both modes select the color and alpha combiners as
/// their names say.
pub proof fn lemma_mode_bits()
    ensures
        ({
            let rgb = Mode::spec_from_bits(1);
            let alpha = Mode::spec_from_bits(2);
            let both = Mode::spec_from_bits(3);
            &&& both.spec_contains(rgb) && both.spec_contains(alpha)
            &&& rgb.spec_contains(rgb) && !rgb.spec_contains(alpha)
            &&& alpha.spec_contains(alpha) && !alpha.spec_contains(rgb)
        }),
{
    assert(1u32 & 1u32 == 1u32) by (bit_vector);
    assert(1u32 & 2u32 == 0u32) by (bit_vector);
    assert(2u32 & 2u32 == 2u32) by (bit_vector);
    assert(2u32 & 1u32 == 0u32) by (bit_vector);
    assert(3u32 & 1u32 == 1u32) by (bit_vector);
    assert(3u32 & 2u32 == 2u32) by (bit_vector);
}

/// A source operand of a [`TexEnv`]'s texture combination.
#[derive(Clone, Copy, Debug, PartialEq, Eq)]
pub enum Source {
    /// Primary color.
    PrimaryColor,
    /// Primary fragment color.
    FragmentPrimaryColor,
    /// Secondary fragment color.
    FragmentSecondaryColor,
    /// Texture unit 0.
    Texture0,
    /// Texture unit 1.
    Texture1,
    /// Texture unit 2.
    Texture2,
    /// Texture unit 3.
    Texture3,
    /// Previous buffer.
    PreviousBuffer,
    /// Constant value.
    Constant,
    /// Previous stage.
    Previous,
}

impl Source {
    /// The raw `GPU_TEVSRC` value that encodes this variant.
    pub open spec fn spec_raw(self) -> u8 {
        match self {
            Source::PrimaryColor => 0x00,
            Source::FragmentPrimaryColor => 0x01,
            Source::FragmentSecondaryColor => 0x02,
            Source::Texture0 => 0x03,
            Source::Texture1 => 0x04,
            Source::Texture2 => 0x05,
            Source::Texture3 => 0x06,
            Source::PreviousBuffer => 0x0D,
            Source::Constant => 0x0E,
            Source::Previous => 0x0F,
        }
    }

    /// Each variant encodes to the `GPU_TEVSRC` value that the hardware defines for it.
    pub proof fn lemma_raw_values()
        ensures
            Source::PrimaryColor.spec_raw() == 0x00,
            Source::FragmentPrimaryColor.spec_raw() == 0x01,
            Source::FragmentSecondaryColor.spec_raw() == 0x02,
            Source::Texture0.spec_raw() == 0x03,
            Source::Texture1.spec_raw() == 0x04,
            Source::Texture2.spec_raw() == 0x05,
            Source::Texture3.spec_raw() == 0x06,
            Source::PreviousBuffer.spec_raw() == 0x0D,
            Source::Constant.spec_raw() == 0x0E,
            Source::Previous.spec_raw() == 0x0F,
    {
    }

    /// The raw `GPU_TEVSRC` value of this variant.
    pub fn raw(self) -> (r: u8)
        ensures
            r == self.spec_raw(),
    {
        match self {
            Source::PrimaryColor => 0x00,
            Source::FragmentPrimaryColor => 0x01,
            Source::FragmentSecondaryColor => 0x02,
            Source::Texture0 => 0x03,
            Source::Texture1 => 0x04,
            Source::Texture2 => 0x05,
            Source::Texture3 => 0x06,
            Source::PreviousBuffer => 0x0D,
            Source::Constant => 0x0E,
            Source::Previous => 0x0F,
        }
    }
}

impl Default for Source {
    fn default() -> (r: Self)
        ensures
            r == Source::PrimaryColor,
    {
        Source::PrimaryColor
    }
}

/// The combination function to apply to the [`TexEnv`] operands.
#[derive(Clone, Copy, Debug, PartialEq, Eq)]
pub enum CombineFunc {
    /// Replace.
    Replace,
    /// Modulate.
    Modulate,
    /// Add.
    Add,
    /// Signed add.
    AddSigned,
    /// Interpolate.
    Interpolate,
    /// Subtract.
    Subtract,
    /// Dot3 RGB.
    Dot3Rgb,
}

impl CombineFunc {
    /// The raw `GPU_COMBINEFUNC` value that encodes this variant.
    pub open spec fn spec_raw(self) -> u8 {
        match self {
            CombineFunc::Replace => 0,
            CombineFunc::Modulate => 1,
            CombineFunc::Add => 2,
            CombineFunc::AddSigned => 3,
            CombineFunc::Interpolate => 4,
            CombineFunc::Subtract => 5,
            CombineFunc::Dot3Rgb => 6,
        }
    }

    /// Each variant encodes to the `GPU_COMBINEFUNC` value that the hardware defines for it.
    pub proof fn lemma_raw_values()
        ensures
            CombineFunc::Replace.spec_raw() == 0,
            CombineFunc::Modulate.spec_raw() == 1,
            CombineFunc::Add.spec_raw() == 2,
            CombineFunc::AddSigned.spec_raw() == 3,
            CombineFunc::Interpolate.spec_raw() == 4,
            CombineFunc::Subtract.spec_raw() == 5,
            CombineFunc::Dot3Rgb.spec_raw() == 6,
    {
    }

    /// The raw `GPU_COMBINEFUNC` value of this variant.
    pub fn raw(self) -> (r: u8)
        ensures
            r == self.spec_raw(),
    {
        match self {
            CombineFunc::Replace => 0,
            CombineFunc::Modulate => 1,
            CombineFunc::Add => 2,
            CombineFunc::AddSigned => 3,
            CombineFunc::Interpolate => 4,
            CombineFunc::Subtract => 5,
            CombineFunc::Dot3Rgb => 6,
        }
    }
}

/// The RGB combiner operands.
#[derive(Clone, Copy, Debug, PartialEq, Eq)]
pub enum RGBOp {
    /// Source color.
    SrcColor,
    /// Source color - 1.
    OneMinusSrcColor,
    /// Source alpha.
    SrcAlpha,
    /// Source alpha - 1.
    OneMinusSrcAlpha,
    /// Source red.
    SrcRed,
    /// Source red - 1.
    OneMinusSrcRed,
    /// Source green.
    SrcGreen,
    /// Source green - 1.
    OneMinusSrcGreen,
    /// Source blue.
    SrcBlue,
    /// Source blue - 1.
    OneMinusSrcBlue,
}

impl RGBOp {
    /// The raw `GPU_TEVOP_RGB` value that encodes this variant.
    pub open spec fn spec_raw(self) -> u8 {
        match self {
            RGBOp::SrcColor => 0,
            RGBOp::OneMinusSrcColor => 1,
            RGBOp::SrcAlpha => 2,
            RGBOp::OneMinusSrcAlpha => 3,
            RGBOp::SrcRed => 4,
            RGBOp::OneMinusSrcRed => 5,
            RGBOp::SrcGreen => 8,
            RGBOp::OneMinusSrcGreen => 9,
            RGBOp::SrcBlue => 12,
            RGBOp::OneMinusSrcBlue => 13,
        }
    }

    /// Each variant encodes to the `GPU_TEVOP_RGB` value that the hardware defines for it.
    pub proof fn lemma_raw_values()
        ensures
            RGBOp::SrcColor.spec_raw() == 0,
            RGBOp::OneMinusSrcColor.spec_raw() == 1,
            RGBOp::SrcAlpha.spec_raw() == 2,
            RGBOp::OneMinusSrcAlpha.spec_raw() == 3,
            RGBOp::SrcRed.spec_raw() == 4,
            RGBOp::OneMinusSrcRed.spec_raw() == 5,
            RGBOp::SrcGreen.spec_raw() == 8,
            RGBOp::OneMinusSrcGreen.spec_raw() == 9,
            RGBOp::SrcBlue.spec_raw() == 12,
            RGBOp::OneMinusSrcBlue.spec_raw() == 13,
    {
    }

    /// The raw `GPU_TEVOP_RGB` value of this variant.
    pub fn raw(self) -> (r: u8)
        ensures
            r == self.spec_raw(),
    {
        match self {
            RGBOp::SrcColor => 0,
            RGBOp::OneMinusSrcColor => 1,
            RGBOp::SrcAlpha => 2,
            RGBOp::OneMinusSrcAlpha => 3,
            RGBOp::SrcRed => 4,
            RGBOp::OneMinusSrcRed => 5,
            RGBOp::SrcGreen => 8,
            RGBOp::OneMinusSrcGreen => 9,
            RGBOp::SrcBlue => 12,
            RGBOp::OneMinusSrcBlue => 13,
        }
    }
}

impl Default for RGBOp {
    fn default() -> (r: Self)
        ensures
            r == RGBOp::SrcColor,
    {
        RGBOp::SrcColor
    }
}

/// The Alpha combiner operands.
#[derive(Clone, Copy, Debug, PartialEq, Eq)]
pub enum AlphaOp {
    /// Source alpha.
    SrcAlpha,
    /// Source alpha - 1.
    OneMinusSrcAlpha,
    /// Source red.
    SrcRed,
    /// Source red - 1.
    OneMinusSrcRed,
    /// Source green.
    SrcGreen,
    /// Source green - 1.
    OneMinusSrcGreen,
    /// Source blue.
    SrcBlue,
    /// Source blue - 1.
    OneMinusSrcBlue,
}

impl AlphaOp {
    /// The raw `GPU_TEVOP_A` value that encodes this variant.
    pub open spec fn spec_raw(self) -> u8 {
        match self {
            AlphaOp::SrcAlpha => 0,
            AlphaOp::OneMinusSrcAlpha => 1,
            AlphaOp::SrcRed => 2,
            AlphaOp::OneMinusSrcRed => 3,
            AlphaOp::SrcGreen => 4,
            AlphaOp::OneMinusSrcGreen => 5,
            AlphaOp::SrcBlue => 6,
            AlphaOp::OneMinusSrcBlue => 7,
        }
    }

    /// Each variant encodes to the `GPU_TEVOP_A` value that the hardware defines for it.
    pub proof fn lemma_raw_values()
        ensures
            AlphaOp::SrcAlpha.spec_raw() == 0,
            AlphaOp::OneMinusSrcAlpha.spec_raw() == 1,
            AlphaOp::SrcRed.spec_raw() == 2,
            AlphaOp::OneMinusSrcRed.spec_raw() == 3,
            AlphaOp::SrcGreen.spec_raw() == 4,
            AlphaOp::OneMinusSrcGreen.spec_raw() == 5,
            AlphaOp::SrcBlue.spec_raw() == 6,
            AlphaOp::OneMinusSrcBlue.spec_raw() == 7,
    {
    }

    /// The raw `GPU_TEVOP_A` value of this variant.
    pub fn raw(self) -> (r: u8)
        ensures
            r == self.spec_raw(),
    {
        match self {
            AlphaOp::SrcAlpha => 0,
            AlphaOp::OneMinusSrcAlpha => 1,
            AlphaOp::SrcRed => 2,
            AlphaOp::OneMinusSrcRed => 3,
            AlphaOp::SrcGreen => 4,
            AlphaOp::OneMinusSrcGreen => 5,
            AlphaOp::SrcBlue => 6,
            AlphaOp::OneMinusSrcBlue => 7,
        }
    }
}

impl Default for AlphaOp {
    fn default() -> (r: Self)
        ensures
            r == AlphaOp::SrcAlpha,
    {
        AlphaOp::SrcAlpha
    }
}

/// Scaling of a combiner's output.
#[derive(Clone, Copy, Debug, PartialEq, Eq)]
pub enum Scale {
    /// 1x scale.
    X1,
    /// 2x scale.
    X2,
    /// 4x scale.
    X4,
}

impl Scale {
    /// The raw `GPU_TEVSCALE` value that encodes this variant.
    pub open spec fn spec_raw(self) -> u8 {
        match self {
            Scale::X1 => 0,
            Scale::X2 => 1,
            Scale::X4 => 2,
        }
    }

    /// Each variant encodes to the `GPU_TEVSCALE` value that the hardware defines for it.
    pub proof fn lemma_raw_values()
        ensures
            Scale::X1.spec_raw() == 0,
            Scale::X2.spec_raw() == 1,
            Scale::X4.spec_raw() == 2,
    {
    }

    /// The raw `GPU_TEVSCALE` value of this variant.
    pub fn raw(self) -> (r: u8)
        ensures
            r == self.spec_raw(),
    {
        match self {
            Scale::X1 => 0,
            Scale::X2 => 1,
            Scale::X4 => 2,
        }
    }
}

impl Default for Scale {
    fn default() -> (r: Self)
        ensures
            r == Scale::X1,
    {
        Scale::X1
    }
}

/// The combined three-operand selector word `a | b << 4 | c << 8`.
pub open spec fn spec_tev_triple(a: u32, b: u32, c: u32) -> u32 {
    a | (b << 4u32) | (c << 8u32)
}

/// Pack three source selectors into one word (`GPU_TEVSOURCES`).
pub fn tev_sources(a: u32, b: u32, c: u32) -> (r: u32)
    ensures
        r == spec_tev_triple(a, b, c),
{
    a | (b << 4) | (c << 8)
}

/// Pack three operand selectors into one word (`GPU_TEVOPERANDS`).
pub fn tev_operands(a: u32, b: u32, c: u32) -> (r: u32)
    ensures
        r == spec_tev_triple(a, b, c),
{
    a | (b << 4) | (c << 8)
}

/// The configuration words of one combiner stage (`C3D_TexEnv`).
#[derive(Clone, Copy, Debug, PartialEq, Eq, Structural)]
pub struct RawTexEnv {
    /// Source selectors of the color combiner.
    pub src_rgb: u16,
    /// Source selectors of the alpha combiner.
    pub src_alpha: u16,
    /// Operand selectors of the color combiner.
    pub op_rgb: u32,
    /// Operand selectors of the alpha combiner.
    pub op_alpha: u32,
    /// Combination function of the color combiner.
    pub func_rgb: u16,
    /// Combination function of the alpha combiner.
    pub func_alpha: u16,
    /// Constant color.
    pub color: u32,
    /// Output scale of the color combiner.
    pub scale_rgb: u16,
    /// Output scale of the alpha combiner.
    pub scale_alpha: u16,
}

impl RawTexEnv {
    /// The operand selectors as `C3D_TexEnv` stores them, in one word: the color
    /// combiner's in bits 0 to 11, the alpha combiner's in bits 12 to 23.
    pub fn op_all(&self) -> (r: u32)
        ensures
            r == (self.op_rgb & 0xFFF) | ((self.op_alpha & 0xFFF) << 12u32),
            r & 0xFFF == self.op_rgb & 0xFFF,
            (r >> 12u32) & 0xFFF == self.op_alpha & 0xFFF,
    {
        let (a, b) = (self.op_rgb, self.op_alpha);
        assert(((a & 0xFFF) | ((b & 0xFFF) << 12u32)) & 0xFFF == a & 0xFFF && ((((a & 0xFFF) | ((b
            & 0xFFF) << 12u32)) >> 12u32) & 0xFFF) == b & 0xFFF) by (bit_vector);
        (a & 0xFFF) | ((b & 0xFFF) << 12)
    }
}

/// The state of a freshly initialized stage: it passes the previous stage
/// through unchanged (`C3D_TexEnvInit`).
pub open spec fn spec_initial_raw() -> RawTexEnv {
    RawTexEnv {
        src_rgb: 0x0F,
        src_alpha: 0x0F,
        op_rgb: 0,
        op_alpha: 0,
        func_rgb: 0,
        func_alpha: 0,
        color: 0xFFFF_FFFF,
        scale_rgb: 0,
        scale_alpha: 0,
    }
}

/// `env` with the source selectors of the combiners that `mode` selects set to `s1, s2, s3`.
pub open spec fn spec_set_src(env: RawTexEnv, mode: u32, s1: u32, s2: u32, s3: u32) -> RawTexEnv {
    let param = #[verifier::truncate] (spec_tev_triple(s1, s2, s3) as u16);
    RawTexEnv {
        src_rgb: if mode & 1 != 0 {
            param
        } else {
            env.src_rgb
        },
        src_alpha: if mode & 2 != 0 {
            param
        } else {
            env.src_alpha
        },
        ..env
    }
}

/// `env` with the operand selectors of the combiners that `mode` selects set to `o1, o2, o3`.
pub open spec fn spec_set_op(env: RawTexEnv, mode: u32, o1: u32, o2: u32, o3: u32) -> RawTexEnv {
    let param = spec_tev_triple(o1, o2, o3);
    RawTexEnv {
        op_rgb: if mode & 1 != 0 {
            param
        } else {
            env.op_rgb
        },
        op_alpha: if mode & 2 != 0 {
            param
        } else {
            env.op_alpha
        },
        ..env
    }
}

/// `env` with the function of the combiners that `mode` selects set to `func`.
pub open spec fn spec_set_func(env: RawTexEnv, mode: u32, func: u32) -> RawTexEnv {
    let param = #[verifier::truncate] (func as u16);
    RawTexEnv {
        func_rgb: if mode & 1 != 0 {
            param
        } else {
            env.func_rgb
        },
        func_alpha: if mode & 2 != 0 {
            param
        } else {
            env.func_alpha
        },
        ..env
    }
}

/// `env` with the output scale of the combiners that `mode` selects set to `scale`.
pub open spec fn spec_set_scale(env: RawTexEnv, mode: u32, scale: u32) -> RawTexEnv {
    let param = #[verifier::truncate] (scale as u16);
    RawTexEnv {
        scale_rgb: if mode & 1 != 0 {
            param
        } else {
            env.scale_rgb
        },
        scale_alpha: if mode & 2 != 0 {
            param
        } else {
            env.scale_alpha
        },
        ..env
    }
}

/// Setting a stage for both combiners at once is the same as setting it for the
/// color combiner and then for the alpha combiner, for the sources, the operands,
/// the function and the scale alike.
pub proof fn lemma_both_is_rgb_then_alpha(
    env: RawTexEnv,
    a: u32,
    b: u32,
    c: u32,
    func: u32,
    scale: u32,
)
    ensures
        spec_set_src(spec_set_src(env, 1, a, b, c), 2, a, b, c) == spec_set_src(env, 3, a, b, c),
        spec_set_op(spec_set_op(env, 1, a, b, c), 2, a, b, c) == spec_set_op(env, 3, a, b, c),
        spec_set_func(spec_set_func(env, 1, func), 2, func) == spec_set_func(env, 3, func),
        spec_set_scale(spec_set_scale(env, 1, scale), 2, scale) == spec_set_scale(env, 3, scale),
{
    assert(1u32 & 1u32 != 0u32 && 1u32 & 2u32 == 0u32 && 2u32 & 1u32 == 0u32 && 2u32 & 2u32 != 0u32
        && 3u32 & 1u32 != 0u32 && 3u32 & 2u32 != 0u32) by (bit_vector);
}

#[allow(non_snake_case)]
/// Reset a stage to pass the previous stage through unchanged.
pub fn C3D_TexEnvInit(env: &mut RawTexEnv)
    ensures
        *final(env) == spec_initial_raw(),
{
    let src = tev_sources(Source::Previous.raw() as u32, 0, 0);
    assert(15u32 | (0u32 << 4u32) | (0u32 << 8u32) == 15u32) by (bit_vector);
    *env = RawTexEnv {
        src_rgb: src as u16,
        src_alpha: src as u16,
        op_rgb: 0,
        op_alpha: 0,
        func_rgb: CombineFunc::Replace.raw() as u16,
        func_alpha: CombineFunc::Replace.raw() as u16,
        color: 0xFFFF_FFFF,
        scale_rgb: Scale::X1.raw() as u16,
        scale_alpha: Scale::X1.raw() as u16,
    };
}

#[allow(non_snake_case)]
/// Set the source selectors of the combiners that `mode` selects.
pub fn C3D_TexEnvSrc(env: &mut RawTexEnv, mode: u32, s1: u32, s2: u32, s3: u32)
    ensures
        *final(env) == spec_set_src(*old(env), mode, s1, s2, s3),
{
    let param = tev_sources(s1, s2, s3);
    if mode & 1 != 0 {
        env.src_rgb = #[verifier::truncate] (param as u16);
    }
    if mode & 2 != 0 {
        env.src_alpha = #[verifier::truncate] (param as u16);
    }
}

#[allow(non_snake_case)]
/// Set the operand selectors of the combiners that `mode` selects.
pub fn C3D_TexEnvOp(env: &mut RawTexEnv, mode: u32, o1: u32, o2: u32, o3: u32)
    ensures
        *final(env) == spec_set_op(*old(env), mode, o1, o2, o3),
{
    let param = tev_operands(o1, o2, o3);
    if mode & 1 != 0 {
        env.op_rgb = param;
    }
    if mode & 2 != 0 {
        env.op_alpha = param;
    }
}

#[allow(non_snake_case)]
/// Set the combination function of the combiners that `mode` selects.
pub fn C3D_TexEnvFunc(env: &mut RawTexEnv, mode: u32, param: u32)
    ensures
        *final(env) == spec_set_func(*old(env), mode, param),
{
    if mode & 1 != 0 {
        env.func_rgb = #[verifier::truncate] (param as u16);
    }
    if mode & 2 != 0 {
        env.func_alpha = #[verifier::truncate] (param as u16);
    }
}

#[allow(non_snake_case)]
/// Set the output scale of the combiners that `mode` selects.
pub fn C3D_TexEnvScale(env: &mut RawTexEnv, mode: u32, scale: u32)
    ensures
        *final(env) == spec_set_scale(*old(env), mode, scale),
{
    if mode & 1 != 0 {
        env.scale_rgb = #[verifier::truncate] (scale as u16);
    }
    if mode & 2 != 0 {
        env.scale_alpha = #[verifier::truncate] (scale as u16);
    }
}

/// `source`, or the default source when there is none.
pub open spec fn spec_or_default(source: Option<Source>) -> Source {
    match source {
        Some(s) => s,
        None => Source::PrimaryColor,
    }
}

/// The sources recorded after setting `s0, s1, s2` for the combiners `mode` selects.
pub open spec fn spec_set_sources(
    sources: Seq<Source>,
    mode: u32,
    s0: Source,
    s1: Option<Source>,
    s2: Option<Source>,
) -> Seq<Source> {
    Seq::new(
        6,
        |i: int|
            if i < 3 && mode & 1 == 1 {
                if i == 0 {
                    s0
                } else if i == 1 {
                    spec_or_default(s1)
                } else {
                    spec_or_default(s2)
                }
            } else if 3 <= i && mode & 2 == 2 {
                if i == 3 {
                    s0
                } else if i == 4 {
                    spec_or_default(s1)
                } else {
                    spec_or_default(s2)
                }
            } else {
                sources[i]
            },
    )
}

fn source_or_default(o: Option<Source>) -> (r: Source)
    ensures
        r == spec_or_default(o),
{
    match o {
        Some(v) => v,
        None => Source::default(),
    }
}

fn rgb_op_or_default(o: Option<RGBOp>) -> (r: RGBOp)
    ensures
        r == (match o {
            Some(v) => v,
            None => RGBOp::SrcColor,
        }),
{
    match o {
        Some(v) => v,
        None => RGBOp::default(),
    }
}

fn alpha_op_or_default(o: Option<AlphaOp>) -> (r: AlphaOp)
    ensures
        r == (match o {
            Some(v) => v,
            None => AlphaOp::SrcAlpha,
        }),
{
    match o {
        Some(v) => v,
        None => AlphaOp::default(),
    }
}

/// A texture combiner, also called a "texture environment" (hence the struct name).
#[derive(Clone, Copy, Debug)]
pub struct TexEnv {
    inner: RawTexEnv,
    pub(crate) sources: [Source; 6],
}

impl TexEnv {
    /// The stage's configuration words.
    pub closed spec fn spec_inner(self) -> RawTexEnv {
        self.inner
    }

    /// The sources of the color (first three) and alpha (last three) combiners, kept
    /// for checking that the necessary textures are bound.
    pub closed spec fn spec_sources(self) -> Seq<Source> {
        self.sources@
    }

    /// Whether this is a freshly initialized stage.
    pub open spec fn spec_is_fresh(self) -> bool {
        &&& self.spec_inner() == spec_initial_raw()
        &&& self.spec_sources() == Seq::new(6, |i: int| Source::PrimaryColor)
    }

    /// The stage's configuration words.
    pub fn as_raw(&self) -> (r: &RawTexEnv)
        ensures
            *r == self.spec_inner(),
    {
        &self.inner
    }

    /// The recorded sources.
    pub fn sources(&self) -> (r: [Source; 6])
        ensures
            r@ == self.spec_sources(),
    {
        self.sources
    }

    /// Create a new texture combiner stage, or "texture environment"
    pub fn new() -> (r: TexEnv)
        ensures
            r.spec_is_fresh(),
    {
        let mut inner = RawTexEnv {
            src_rgb: 0,
            src_alpha: 0,
            op_rgb: 0,
            op_alpha: 0,
            func_rgb: 0,
            func_alpha: 0,
            color: 0,
            scale_rgb: 0,
            scale_alpha: 0,
        };
        C3D_TexEnvInit(&mut inner);
        let d = Source::default();
        let r = TexEnv { inner, sources: [d, d, d, d, d, d] };
        assert(r.sources@ =~= Seq::new(6, |i: int| Source::PrimaryColor));
        r
    }

    /// Reset the stage to its initial state.
    pub fn reset(self) -> (r: TexEnv)
        ensures
            r.spec_is_fresh(),
    {
        let mut inner = self.inner;
        C3D_TexEnvInit(&mut inner);
        let d = Source::default();
        let r = TexEnv { inner, sources: [d, d, d, d, d, d] };
        assert(r.sources@ =~= Seq::new(6, |i: int| Source::PrimaryColor));
        r
    }

    /// Set the sources to use for the rgb and/or alpha components of this texenv stage.
    /// If sourcing from a texture unit, ensure a texture is also bound to that unit.
    pub fn src(self, mode: Mode, source0: Source, source1: Option<Source>, source2: Option<
        Source,
    >) -> (r: TexEnv)
        ensures
            r.spec_inner() == spec_set_src(
                self.spec_inner(),
                mode.spec_bits(),
                source0.spec_raw() as u32,
                spec_or_default(source1).spec_raw() as u32,
                spec_or_default(source2).spec_raw() as u32,
            ),
            r.spec_sources() == spec_set_sources(
                self.spec_sources(),
                mode.spec_bits(),
                source0,
                source1,
                source2,
            ),
    {
        let mut this = self;
        let s1 = source_or_default(source1);
        let s2 = source_or_default(source2);
        C3D_TexEnvSrc(&mut this.inner, mode.bits(), source0.raw() as u32, s1.raw() as u32, s2.raw() as u32);
        let ghost old_sources = this.sources@;
        if mode.contains(Mode::RGB()) {
            this.sources[0] = source0;
            this.sources[1] = s1;
            this.sources[2] = s2;
        }
        if mode.contains(Mode::ALPHA()) {
            this.sources[3] = source0;
            this.sources[4] = s1;
            this.sources[5] = s2;
        }
        proof {
            assert(this.sources@ =~= spec_set_sources(
                old_sources,
                mode.spec_bits(),
                source0,
                source1,
                source2,
            ));
        }
        this
    }

    /// Set the operands of the color combiner.
    pub fn op_rgb(self, o1: RGBOp, o2: Option<RGBOp>, o3: Option<RGBOp>) -> (r: TexEnv)
        ensures
            r.spec_inner() == spec_set_op(
                self.spec_inner(),
                1,
                o1.spec_raw() as u32,
                (match o2 {
                    Some(o) => o,
                    None => RGBOp::SrcColor,
                }).spec_raw() as u32,
                (match o3 {
                    Some(o) => o,
                    None => RGBOp::SrcColor,
                }).spec_raw() as u32,
            ),
            r.spec_sources() == self.spec_sources(),
    {
        let mut this = self;
        let p2 = rgb_op_or_default(o2);
        let p3 = rgb_op_or_default(o3);
        C3D_TexEnvOp(&mut this.inner, 1, o1.raw() as u32, p2.raw() as u32, p3.raw() as u32);
        this
    }

    /// Set the operands of the alpha combiner.
    pub fn op_alpha(self, o1: AlphaOp, o2: Option<AlphaOp>, o3: Option<AlphaOp>) -> (r: TexEnv)
        ensures
            r.spec_inner() == spec_set_op(
                self.spec_inner(),
                2,
                o1.spec_raw() as u32,
                (match o2 {
                    Some(o) => o,
                    None => AlphaOp::SrcAlpha,
                }).spec_raw() as u32,
                (match o3 {
                    Some(o) => o,
                    None => AlphaOp::SrcAlpha,
                }).spec_raw() as u32,
            ),
            r.spec_sources() == self.spec_sources(),
    {
        let mut this = self;
        let p2 = alpha_op_or_default(o2);
        let p3 = alpha_op_or_default(o3);
        C3D_TexEnvOp(&mut this.inner, 2, o1.raw() as u32, p2.raw() as u32, p3.raw() as u32);
        this
    }

    /// Set the combination function of the combiners `mode` selects.
    pub fn func(self, mode: Mode, func: CombineFunc) -> (r: TexEnv)
        ensures
            r.spec_inner() == spec_set_func(self.spec_inner(), mode.spec_bits(), func.spec_raw() as u32),
            r.spec_sources() == self.spec_sources(),
    {
        let mut this = self;
        C3D_TexEnvFunc(&mut this.inner, mode.bits(), func.raw() as u32);
        this
    }

    /// Set the constant color.
    pub fn color(self, color: u32) -> (r: TexEnv)
        ensures
            r.spec_inner() == (RawTexEnv { color, ..self.spec_inner() }),
            r.spec_sources() == self.spec_sources(),
    {
        let mut this = self;
        this.inner.color = color;
        this
    }

    /// Set the output scale of the combiners `mode` selects.
    pub fn scale(self, mode: Mode, scale: Scale) -> (r: TexEnv)
        ensures
            r.spec_inner() == spec_set_scale(self.spec_inner(), mode.spec_bits(), scale.spec_raw() as u32),
            r.spec_sources() == self.spec_sources(),
    {
        let mut this = self;
        C3D_TexEnvScale(&mut this.inner, mode.bits(), scale.raw() as u32);
        this
    }

    /// Check that `stage` is one of the combiner stages, before this stage is made
    /// the active one there.
    ///
    /// # Errors
    ///
    /// [`Error::IndexOutOfBounds`] if `stage` is not below [`TEXENV_COUNT`].
    pub fn set_texenv(&self, stage: usize) -> (r: Result<(), Error>)
        ensures
            r is Ok <==> stage < TEXENV_COUNT,
            r matches Err(e) ==> e == (Error::IndexOutOfBounds {
                idx: #[verifier::truncate] (stage as i32),
                len: 6,
            }),
    {
        if stage >= TEXENV_COUNT {
            return Err(Error::IndexOutOfBounds { idx: #[verifier::truncate] (stage as i32), len: 6 });
        }
        Ok(())
    }
}

/// Configure the source values of the texture combiner.
#[derive(Clone, Copy, Debug)]
pub struct Sources {
    /// The first [`Source`] operand to the texture combiner
    pub source0: Source,
    /// Optional additional [`Source`] operand to use
    pub source1: Option<Source>,
    /// Optional additional [`Source`] operand to use
    pub source2: Option<Source>,
}

impl Default for Sources {
    fn default() -> (r: Self)
        ensures
            r.source0 == Source::PrimaryColor,
            r.source1 is None,
            r.source2 is None,
    {
        Sources { source0: Source::PrimaryColor, source1: None, source2: None }
    }
}

} // verus!
