use citro3d::texenv::{
    tev_operands, tev_sources, AlphaOp, CombineFunc, Mode, RGBOp, RawTexEnv, Scale, Source,
    Sources, Stage, TexEnv, C3D_TexEnvFunc, C3D_TexEnvInit, C3D_TexEnvOp, C3D_TexEnvSrc,
};
use citro3d::Error;

fn fresh_raw() -> RawTexEnv {
    RawTexEnv {
        src_rgb: 0x0F,
        src_alpha: 0x0F,
        op_rgb: 0,
        op_alpha: 0,
        func_rgb: 0,
        func_alpha: 0,
        color: 0xFFFF_FFFF,
        scale_rgb: 0,
        scale_alpha: 0,
    }
}

#[test]
fn new_stage_passes_previous_through() {
    let env = TexEnv::new();
    assert_eq!(*env.as_raw(), fresh_raw());
    assert!(env.sources().iter().all(|s| matches!(s, Source::PrimaryColor)));
}

#[test]
fn sources_for_rgb_only() {
    let env = TexEnv::new().src(Mode::RGB(), Source::Texture0, Some(Source::Constant), None);
    let raw = env.as_raw();
    assert_eq!(raw.src_rgb, 0x03 | (0x0E << 4));
    assert_eq!(raw.src_alpha, 0x0F);
    let s = env.sources();
    assert!(matches!(s[0], Source::Texture0));
    assert!(matches!(s[1], Source::Constant));
    assert!(matches!(s[2], Source::PrimaryColor));
    assert!(matches!(s[3], Source::PrimaryColor));
}

#[test]
fn sources_for_both() {
    let env = TexEnv::new().src(
        Mode::BOTH(),
        Source::Texture1,
        Some(Source::Previous),
        Some(Source::FragmentPrimaryColor),
    );
    let raw = env.as_raw();
    let param = 0x04 | (0x0F << 4) | (0x01 << 8);
    assert_eq!(raw.src_rgb, param);
    assert_eq!(raw.src_alpha, param);
    let s = env.sources();
    assert!(matches!(s[3], Source::Texture1));
    assert!(matches!(s[4], Source::Previous));
    assert!(matches!(s[5], Source::FragmentPrimaryColor));
}

#[test]
fn operands_functions_color_scale() {
    let env = TexEnv::new()
        .op_rgb(RGBOp::SrcAlpha, Some(RGBOp::SrcBlue), None)
        .op_alpha(AlphaOp::OneMinusSrcRed, None, Some(AlphaOp::SrcGreen))
        .func(Mode::ALPHA(), CombineFunc::Modulate)
        .color(0x1234_5678)
        .scale(Mode::RGB(), Scale::X4);
    let raw = env.as_raw();
    assert_eq!(raw.op_rgb, 2 | (12 << 4));
    assert_eq!(raw.op_alpha, 3 | (4 << 8));
    assert_eq!(raw.func_rgb, 0);
    assert_eq!(raw.func_alpha, 1);
    assert_eq!(raw.color, 0x1234_5678);
    assert_eq!(raw.scale_rgb, 2);
    assert_eq!(raw.scale_alpha, 0);
    assert_eq!(*env.reset().as_raw(), fresh_raw());
}

#[test]
fn set_texenv_bounds() {
    let env = TexEnv::new();
    assert!(env.set_texenv(5).is_ok());
    assert!(matches!(env.set_texenv(6), Err(Error::IndexOutOfBounds { idx: 6, len: 6 })));
    assert_eq!(Stage::new(5).map(|s| s.index()), Some(5));
    assert!(Stage::new(6).is_none());
}

#[test]
fn raw_stage_helpers() {
    let mut raw = fresh_raw();
    raw.color = 0;
    C3D_TexEnvInit(&mut raw);
    assert_eq!(raw, fresh_raw());
    C3D_TexEnvSrc(&mut raw, 2, 1, 2, 3);
    assert_eq!(raw.src_alpha, 0x321);
    assert_eq!(raw.src_rgb, 0x0F);
    C3D_TexEnvOp(&mut raw, 3, 1, 1, 1);
    assert_eq!((raw.op_rgb, raw.op_alpha), (0x111, 0x111));
    C3D_TexEnvFunc(&mut raw, 1, 4);
    assert_eq!((raw.func_rgb, raw.func_alpha), (4, 0));
    assert_eq!(tev_sources(0xF, 0, 0), 0xF);
    assert_eq!(tev_operands(1, 2, 3), 0x321);
    assert!(Mode::BOTH().contains(Mode::RGB()));
    assert!(!Mode::ALPHA().contains(Mode::RGB()));
    assert_eq!(Mode::BOTH().bits(), 3);
}

#[test]
fn default_sources() {
    let s = Sources::default();
    assert!(matches!(s.source0, Source::PrimaryColor));
    assert!(s.source1.is_none() && s.source2.is_none());
}

#[test]
fn both_combiners_equal_rgb_then_alpha() {
    let mut both = fresh_raw();
    C3D_TexEnvSrc(&mut both, 3, 3, 4, 5);
    C3D_TexEnvOp(&mut both, 3, 1, 2, 3);
    C3D_TexEnvFunc(&mut both, 3, 7);
    let mut split = fresh_raw();
    C3D_TexEnvSrc(&mut split, 1, 3, 4, 5);
    C3D_TexEnvSrc(&mut split, 2, 3, 4, 5);
    C3D_TexEnvOp(&mut split, 1, 1, 2, 3);
    C3D_TexEnvOp(&mut split, 2, 1, 2, 3);
    C3D_TexEnvFunc(&mut split, 1, 7);
    C3D_TexEnvFunc(&mut split, 2, 7);
    assert_eq!(both, split);
    assert_eq!(both.src_rgb, 3 | (4 << 4) | (5 << 8));
    assert_eq!(both.src_alpha, both.src_rgb);
    assert_eq!(both.func_alpha, 7);
}

#[test]
fn packed_operands() {
    let mut env = fresh_raw();
    C3D_TexEnvOp(&mut env, 1, 1, 2, 3);
    C3D_TexEnvOp(&mut env, 2, 4, 5, 6);
    assert_eq!(env.op_all(), 0x321 | (0x654 << 12));
    assert_eq!(fresh_raw().op_all(), 0);
}
