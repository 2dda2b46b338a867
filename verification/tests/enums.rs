use citro3d::enums;
use citro3d::fog::{FogMode, GasDepthFunction, GasLutInput, GasMode};
use citro3d::render::effect::{
    BlendEquation, BlendFactor, CullMode, EarlyDepthFunction, FragmentOperationMode,
    LogicOperation, ScissorMode, StencilOperation, TestFunction, WriteMask,
};

#[test]
fn test_function_decodes() {
    assert_eq!(TestFunction::try_from(0u8), Ok(TestFunction::Never));
    assert_eq!(TestFunction::try_from(7u8), Ok(TestFunction::GreaterOrEqual));
    assert_eq!(
        TestFunction::try_from(8u8),
        Err("invalid value for TestFunction".to_string())
    );
}

#[test]
fn effect_enums_round_trip() {
    for v in 0..=255u8 {
        if let Ok(e) = TestFunction::try_from(v) {
            assert_eq!(e.raw(), v);
        }
        if let Ok(e) = EarlyDepthFunction::try_from(v) {
            assert_eq!(e.raw(), v);
        }
        if let Ok(e) = ScissorMode::try_from(v) {
            assert_eq!(e.raw(), v);
        }
        if let Ok(e) = StencilOperation::try_from(v) {
            assert_eq!(e.raw(), v);
        }
        if let Ok(e) = WriteMask::try_from(v) {
            assert_eq!(e.raw(), v);
        }
        if let Ok(e) = BlendEquation::try_from(v) {
            assert_eq!(e.raw(), v);
        }
        if let Ok(e) = BlendFactor::try_from(v) {
            assert_eq!(e.raw(), v);
        }
        if let Ok(e) = LogicOperation::try_from(v) {
            assert_eq!(e.raw(), v);
        }
        if let Ok(e) = CullMode::try_from(v) {
            assert_eq!(e.raw(), v);
        }
        if let Ok(e) = FragmentOperationMode::try_from(v) {
            assert_eq!(e.raw(), v);
        }
    }
    assert_eq!(TestFunction::try_from(TestFunction::Less.raw()), Ok(TestFunction::Less));
}

#[test]
fn effect_enum_values() {
    assert_eq!(ScissorMode::try_from(2u8), Err("invalid value for ScissorMode".to_string()));
    assert_eq!(ScissorMode::try_from(3u8), Ok(ScissorMode::Normal));
    assert_eq!(WriteMask::try_from(0x1Fu8), Ok(WriteMask::All));
    assert_eq!(WriteMask::try_from(0x0Fu8), Ok(WriteMask::Color));
    assert_eq!(BlendFactor::try_from(14u8), Ok(BlendFactor::SrcAlphaSaturate));
    assert_eq!(LogicOperation::try_from(4u8), Ok(LogicOperation::SetAll));
    assert_eq!(CullMode::try_from(0u8), Ok(CullMode::NoCull));
    assert_eq!(FragmentOperationMode::try_from(3u8), Ok(FragmentOperationMode::Shadow));
    assert_eq!(
        FragmentOperationMode::try_from(2u8),
        Err("invalid value for FragmentOperationMode".to_string())
    );
}

#[test]
fn fog_enums() {
    assert_eq!(FogMode::try_from(5u8), Ok(FogMode::Fog));
    assert_eq!(FogMode::try_from(7u8), Ok(FogMode::Gas));
    assert_eq!(FogMode::try_from(1u8), Err("invalid value for FogMode".to_string()));
    assert_eq!(GasMode::try_from(1u8), Ok(GasMode::DepthDensity));
    assert_eq!(GasLutInput::try_from(0u8), Ok(GasLutInput::Density));
    assert_eq!(GasDepthFunction::try_from(3u8), Ok(GasDepthFunction::Less));
    assert_eq!(GasDepthFunction::try_from(4u8), Err("invalid value for GasDepthFunction".to_string()));
}

#[test]
fn raw_enums_module() {
    assert_eq!(enums::LightLutScaler::try_from(6u8), Ok(enums::LightLutScaler::QuarterX));
    assert_eq!(
        enums::LightLutScaler::try_from(4u8),
        Err("Invalid value for LightLutScaler".to_string())
    );
    assert_eq!(enums::LightLutId::try_from(7u8), Ok(enums::LightLutId::DistanceAttenuation));
    assert_eq!(enums::FresnelSel::try_from(3u8), Ok(enums::FresnelSel::PrimarySecondaryAlpha));
    assert_eq!(enums::LightLutSelect::try_from(2u8), Ok(enums::LightLutSelect::DistanceAttenuation));
    assert_eq!(
        enums::TestFunction::try_from(9u8),
        Err("Invalid value for TestFunction".to_string())
    );
    assert_eq!(enums::FogMode::Gas.raw(), 7);
}
