use citro3d::bindings::{
    blocklisted_type_implements_trait, is_known_good_type, DeriveTrait, ImplementsTrait,
};

#[test]
fn known_good_type_names() {
    for name in [
        "u64_", "u32_", "u16_", "u8_", "u64", "u32", "u16", "u8", "gfxScreen_t", "gfx3dSide_t",
    ] {
        assert!(is_known_good_type(name), "{name}");
    }
    assert!(is_known_good_type("GPU_TEXCOLOR"));
    assert!(is_known_good_type("GPU_"));
    assert!(!is_known_good_type("GPU"));
    assert!(!is_known_good_type("gpu_TEXCOLOR"));
    assert!(!is_known_good_type("u8__"));
    assert!(!is_known_good_type("s32"));
    assert!(!is_known_good_type(""));
    assert!(!is_known_good_type("C3D_Tex"));
}

#[test]
fn blocklisted_copy_and_debug_only() {
    assert_eq!(
        blocklisted_type_implements_trait("u32", DeriveTrait::Copy),
        Some(ImplementsTrait::Yes)
    );
    assert_eq!(
        blocklisted_type_implements_trait("GPU_Primitive_t", DeriveTrait::Debug),
        Some(ImplementsTrait::Yes)
    );
    assert_eq!(blocklisted_type_implements_trait("u32", DeriveTrait::Default), None);
    assert_eq!(blocklisted_type_implements_trait("u32", DeriveTrait::Hash), None);
    assert_eq!(
        blocklisted_type_implements_trait("u32", DeriveTrait::PartialEqOrPartialOrd),
        None
    );
    assert_eq!(blocklisted_type_implements_trait("C3D_Mtx", DeriveTrait::Copy), None);
}
