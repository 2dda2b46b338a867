use citro3d::citro2d::Color;

#[test]
fn color_packing() {
    let c = Color::new_with_alpha(0x11, 0x22, 0x33, 0x44);
    assert_eq!(c.inner, 0x4433_2211);
    assert_eq!(Color::new(1, 2, 3).inner, 0xFF03_0201);
    assert_eq!(u32::from(Color::from(0xDEAD_BEEFu32)), 0xDEAD_BEEF);
    let packed: u32 = Color::new(0, 0, 0xFF).into();
    assert_eq!(packed, 0xFFFF_0000);
}

#[test]
fn citro2d_instance_init_result() {
    let c3d = citro3d::Instance::with_init_result(true).unwrap();
    assert!(citro3d::citro2d::Instance::with_init_result(true, c3d).is_ok());
    let c3d = citro3d::Instance::with_init_result(true).unwrap();
    assert!(matches!(
        citro3d::citro2d::Instance::with_init_result(false, c3d),
        Err(citro3d::citro2d::Error::FailedToInitialize)
    ));
}
