use citro3d::buffer::Buffer;
use citro3d::light::Light;
use citro3d::math::{FVec3, F32_ONE_BITS};
use citro3d::texenv::{Mode, Source, Stage};
use citro3d::util::{is_linear_addr, OS_FCRAM_SIZE, OS_FCRAM_VADDR};
use citro3d::{Error, Instance};

#[test]
fn instance_init_result() {
    assert!(Instance::with_init_result(true).is_ok());
    assert!(matches!(
        Instance::with_init_result(false),
        Err(Error::FailedToInitialize)
    ));
}

#[test]
fn instance_render_target_selection() {
    assert!(Instance::select_render_target(true).is_ok());
    assert!(matches!(
        Instance::select_render_target(false),
        Err(Error::InvalidRenderTarget)
    ));
}

#[test]
fn instance_texenv_is_initialized_then_kept() {
    let mut instance = Instance::with_init_result(true).unwrap();
    let stage = Stage::new(2).unwrap();
    {
        let env = instance.texenv(stage);
        assert_eq!(env.as_raw().src_rgb, 0x0F);
        assert_eq!(env.sources(), [Source::PrimaryColor; 6]);
        *env = env.src(Mode::BOTH(), Source::Texture0, None, None);
    }
    let env = instance.texenv(stage);
    assert_eq!(env.sources()[0], Source::Texture0);
    assert_eq!(env.sources()[3], Source::Texture0);
    let other = instance.texenv(Stage::new(3).unwrap());
    assert_eq!(other.sources(), [Source::PrimaryColor; 6]);
}

#[test]
fn linear_address_bounds() {
    assert!(!is_linear_addr(OS_FCRAM_VADDR - 1));
    assert!(is_linear_addr(OS_FCRAM_VADDR));
    assert!(is_linear_addr(OS_FCRAM_VADDR + OS_FCRAM_SIZE - 1));
    assert!(!is_linear_addr(OS_FCRAM_VADDR + OS_FCRAM_SIZE));
    assert!(!is_linear_addr(0));
}

#[test]
fn light_position_vector_has_unit_w() {
    let p = FVec3::from_raw([0, 1.5f32.to_bits(), 2.0f32.to_bits(), 3.0f32.to_bits()]);
    let v = Light::position_vector(p);
    assert_eq!(
        *v.as_raw(),
        [F32_ONE_BITS, 1.5f32.to_bits(), 2.0f32.to_bits(), 3.0f32.to_bits()]
    );
    assert_eq!(F32_ONE_BITS, 1.0f32.to_bits());
}

#[test]
fn buffer_in_linear_memory() {
    let b = Buffer::new_in_linear(16, 7);
    assert_eq!(b.len(), 7);
    assert_eq!(b.stride(), 16);
}
