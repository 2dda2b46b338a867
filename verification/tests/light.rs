use citro3d::light::{
    lut_samples, BumpMappingMode, DistanceAttenuation, FresnelSelector, Light, LightEnv,
    LightIndex, Lut, LutId, LutInput, LutScale, Spotlight, LIGHT_SP_DIRTY,
};

fn lut(v: u32) -> Lut {
    Lut::from_data([v; 256])
}

#[test]
fn light_index_round_trip() {
    for i in 0..8 {
        assert_eq!(LightIndex::new(i).as_usize(), i);
    }
}

#[test]
fn create_lights_in_order_until_full() {
    let mut env = LightEnv::new();
    for i in 0..8 {
        assert_eq!(env.create_light().map(|l| l.as_usize()), Some(i));
    }
    assert!(env.create_light().is_none());
}

#[test]
fn destroyed_slot_is_reused_first() {
    let mut env = LightEnv::new();
    for _ in 0..4 {
        env.create_light().unwrap();
    }
    env.destroy_light(LightIndex::new(1));
    assert!(env.light(LightIndex::new(1)).is_none());
    assert!(env.light(LightIndex::new(2)).is_some());
    assert_eq!(env.create_light().map(|l| l.as_usize()), Some(1));
    assert_eq!(env.create_light().map(|l| l.as_usize()), Some(4));
}

#[test]
fn connect_then_disconnect_returns_table() {
    let mut env = LightEnv::new();
    assert_eq!(env.connect_lut(LutId::D0, LutInput::NormalView, lut(5)), Some(lut(5)));
    assert_eq!(env.disconnect_lut(LutId::D1, LutInput::NormalView), None);
    assert_eq!(env.disconnect_lut(LutId::D0, LutInput::NormalView), Some(lut(5)));
    assert_eq!(env.disconnect_lut(LutId::D0, LutInput::NormalView), None);
}

#[test]
fn light_owned_tables_are_not_kept_by_environment() {
    let mut env = LightEnv::new();
    assert_eq!(env.connect_lut(LutId::Spotlight, LutInput::CosPhi, lut(1)), None);
    assert_eq!(env.disconnect_lut(LutId::Spotlight, LutInput::CosPhi), None);
    assert_eq!(env.connect_lut(LutId::DistanceAttenuation, LutInput::CosPhi, lut(1)), None);
    assert_eq!(env.connect_lut(LutId::ReflectRed, LutInput::CosPhi, lut(2)), Some(lut(2)));
    assert_eq!(env.connect_lut(LutId::ReflectRed, LutInput::CosPhi, lut(3)), Some(lut(3)));
    assert_eq!(env.disconnect_lut(LutId::ReflectRed, LutInput::CosPhi), Some(lut(3)));
}

#[test]
fn light_tables() {
    let mut env = LightEnv::new();
    let idx = env.create_light().unwrap();
    let light = env.light_mut(idx).unwrap();
    assert!(light.set_spotlight(Some(Spotlight::new(lut(9)))).is_some());
    assert!(light.set_distance_attenutation(Some(DistanceAttenuation::from_parts(lut(4), 1, 2))).is_some());
    let light = env.light(idx).unwrap();
    assert_eq!(*light.spotlight().unwrap().lut(), lut(9));
    assert_eq!(*light.distance_attenuation().unwrap().lut(), lut(4));
    assert_eq!(light.distance_attenuation().unwrap().bias_and_scale(), (1, 2));
    let light = env.light_mut(idx).unwrap();
    assert!(light.set_spotlight(None).is_none());
    assert!(light.spotlight().is_none());
    assert!(Light::new().spotlight().is_none());
}

#[test]
fn light_flags() {
    assert_eq!(Light::spot_dirty_cleared(0xFFFF_FFFF), 0xFFFF_FFFF & !LIGHT_SP_DIRTY);
    assert_eq!(Light::spot_dirty_cleared(0x4001), 0x1);
    assert!(Light::spotlight_disabled(1 << 10, 2));
    assert!(!Light::spotlight_disabled(1 << 10, 3));
    assert_eq!(LightEnv::lights_dirty(1), 5);
}

#[test]
fn lut_equality_and_data() {
    let mut a = lut(1);
    assert_eq!(a, lut(1));
    a.data_mut()[255] = 2;
    assert_ne!(a, lut(1));
    assert_eq!(a.data()[255], 2);
    assert_eq!(a.data()[0], 1);
}

#[test]
fn lut_samples_positive() {
    let s = lut_samples(false);
    assert_eq!(s.len(), 257);
    assert_eq!(s[0].input, 0);
    assert_eq!(s[0].value_slot, Some(0));
    assert_eq!(s[0].delta, None);
    assert_eq!(s[1].delta, Some((256, 0)));
    assert_eq!(s[256].input, 256);
    assert_eq!(s[256].value_slot, None);
    assert_eq!(s[256].delta, Some((511, 255)));
}

#[test]
fn lut_samples_negative() {
    let s = lut_samples(true);
    assert_eq!(s.len(), 257);
    assert_eq!(s[0].input, -128);
    assert_eq!(s[0].value_slot, Some(128));
    assert_eq!(s[127].value_slot, Some(255));
    assert_eq!(s[128].value_slot, Some(0));
    assert_eq!(s[128].delta, Some((255, 255)));
    assert_eq!(s[256].value_slot, None);
    assert_eq!(s[256].delta, Some((383, 127)));
    let mut seen = [false; 256];
    for sample in &s[..256] {
        let slot = sample.value_slot.unwrap();
        assert!(!seen[slot]);
        seen[slot] = true;
    }
}

#[test]
fn light_enum_values() {
    assert_eq!(LutInput::try_from(5u8), Ok(LutInput::CosPhi));
    assert_eq!(LutInput::try_from(6u8), Err("invalid value for LutInput".to_string()));
    assert_eq!(LutId::try_from(2u8), Ok(LutId::Spotlight));
    assert_eq!(FresnelSelector::try_from(0u8), Ok(FresnelSelector::NoFresnel));
    assert_eq!(LutScale::try_from(7u8), Ok(LutScale::HalfX));
    assert_eq!(BumpMappingMode::try_from(2u8), Ok(BumpMappingMode::AsTangent));
}

#[test]
fn environment_table_slots() {
    assert_eq!(LightEnv::lut_id_to_index(LutId::D0), Some(0));
    assert_eq!(LightEnv::lut_id_to_index(LutId::D1), Some(1));
    assert_eq!(LightEnv::lut_id_to_index(LutId::Fresnel), Some(2));
    assert_eq!(LightEnv::lut_id_to_index(LutId::ReflectBlue), Some(3));
    assert_eq!(LightEnv::lut_id_to_index(LutId::ReflectGreen), Some(4));
    assert_eq!(LightEnv::lut_id_to_index(LutId::ReflectRed), Some(5));
    assert_eq!(LightEnv::lut_id_to_index(LutId::Spotlight), None);
    assert_eq!(LightEnv::lut_id_to_index(LutId::DistanceAttenuation), None);
}

#[test]
fn light_index_rebuilt_from_slot() {
    for i in 0..8 {
        let idx = LightIndex::new(i);
        assert_eq!(idx.as_usize(), i);
        assert_eq!(LightIndex::new(idx.as_usize()), idx);
    }
}

#[test]
fn light_slot_array() {
    let mut env = LightEnv::new();
    let idx = env.create_light().unwrap();
    assert!(env.lights()[idx.as_usize()].is_some());
    assert_eq!(env.lights().iter().filter(|l| l.is_some()).count(), 1);
    env.lights_mut()[3] = Some(Light::new());
    assert!(env.light(LightIndex::new(3)).is_some());
    env.lights_mut()[idx.as_usize()] = None;
    assert!(env.light(idx).is_none());
}
