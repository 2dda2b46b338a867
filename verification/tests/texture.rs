use citro3d::texture::{
    check_image_len, check_texture_size, tex_calc_max_level, ColorFormat, Mode, TexInitParams,
    TextureParameters,
};
use citro3d::texture::{Face, Filter, Unit, Wrap};
use citro3d::Error;

#[test]
fn texture_sizes() {
    let valid: Vec<u16> = (0..=u16::MAX).filter(|s| check_texture_size(*s)).collect();
    assert_eq!(valid, vec![8, 16, 32, 64, 128, 256, 512, 1024]);
}

#[test]
fn max_levels() {
    assert_eq!(tex_calc_max_level(8, 8), 0);
    assert_eq!(tex_calc_max_level(256, 64), 3);
    assert_eq!(tex_calc_max_level(1024, 1024), 7);
    assert_eq!(tex_calc_max_level(4, 1024), -1);
    assert_eq!(TextureParameters::new_2d_with_mipmap(128, 256, ColorFormat::Rgb8).max_level, 4);
}

#[test]
fn parameter_constructors() {
    let p = TextureParameters::new_2d(64, 32, ColorFormat::La8);
    assert_eq!((p.width, p.height, p.max_level, p.on_vram), (64, 32, 0, false));
    assert_eq!(p.mode, Mode::Tex2D);
    assert!(TextureParameters::new_2d_in_vram(8, 8, ColorFormat::A4).on_vram);
    let s = TextureParameters::new_shadow(16, 16);
    assert_eq!(s.mode, Mode::Shadow2D);
    assert_eq!(s.format, ColorFormat::Rgba8);
    assert!(s.on_vram);
}

#[test]
fn parameter_validation() {
    assert!(TextureParameters::new_2d(64, 32, ColorFormat::La8).validate().is_ok());
    assert!(matches!(
        TextureParameters::new_2d(64, 48, ColorFormat::La8).validate(),
        Err(Error::InvalidSize)
    ));
    assert!(matches!(
        TextureParameters::new_2d(2048, 64, ColorFormat::La8).validate(),
        Err(Error::InvalidSize)
    ));
    let mut cube = TextureParameters::new_2d(64, 64, ColorFormat::Rgba8);
    cube.mode = Mode::CubeMap;
    assert!(matches!(cube.validate(), Err(Error::FailedToInitialize)));
    cube.mode = Mode::ShadowCube;
    assert!(matches!(cube.validate(), Err(Error::FailedToInitialize)));
    cube.width = 3;
    assert!(matches!(cube.validate(), Err(Error::InvalidSize)));
}

#[test]
fn image_lengths() {
    // Level 2 of a 64x64 RGBA8 image: (64 * 64 * 4) >> 4 = 1024 bytes.
    assert!(check_image_len(ColorFormat::Rgba8, 64, 64, 3, 1024, 2).is_ok());
    assert!(matches!(
        check_image_len(ColorFormat::Rgba8, 64, 64, 3, 1023, 2),
        Err(Error::InvalidSize)
    ));
    // Levels 0 and 1 of an 8x8 RGBA8 image: 256 + 64 bytes.
    assert!(check_image_len(ColorFormat::Rgba8, 8, 8, 1, 320, 0).is_ok());
    assert!(check_image_len(ColorFormat::Rgba8, 8, 8, 1, 319, 0).is_err());
    // The single level of an 8x8 RGBA8 image needs all its 256 bytes.
    assert!(check_image_len(ColorFormat::Rgba8, 8, 8, 0, 256, 0).is_ok());
    assert!(check_image_len(ColorFormat::Rgba8, 8, 8, 0, 32, 0).is_err());
    // A 16x8 ETC1 image at 4 bits per pixel: 64 bytes.
    assert!(check_image_len(ColorFormat::Etc1, 16, 8, 0, 64, 0).is_ok());
    assert!(check_image_len(ColorFormat::Etc1, 16, 8, 0, 63, 0).is_err());
    assert_eq!(ColorFormat::Etc1.bits_per_pixel(), 4);
    assert_eq!(ColorFormat::Rgb8.bits_per_pixel(), 24);
}

#[test]
fn init_params_packing() {
    let p = TextureParameters::new_2d_with_mipmap(256, 64, ColorFormat::Rgb565);
    assert_eq!(p.max_level, 3);
    let raw = TexInitParams::from(p);
    assert_eq!(raw.width, 256);
    assert_eq!(raw.height, 64);
    assert_eq!(raw.bits, 3 | (3 << 4));
    let shadow = TexInitParams::from(TextureParameters::new_shadow(128, 128));
    assert_eq!(shadow.bits, (2 << 8) | (1 << 11));
    let vram = TexInitParams::from(TextureParameters::new_2d_in_vram(8, 8, ColorFormat::Etc1A4));
    assert_eq!(vram.bits, (13 << 4) | (1 << 11));
}

#[test]
fn mipmap_chain_ends_at_eight_pixels() {
    let sizes = [8u16, 16, 32, 64, 128, 256, 512, 1024];
    for &w in &sizes {
        for &h in &sizes {
            let p = TextureParameters::new_2d_with_mipmap(w, h, ColorFormat::Rgba8);
            assert!(p.max_level <= 7);
            assert_eq!(8u32 << p.max_level, u32::from(w.min(h)));
        }
    }
}

#[test]
fn texture_sampling_enums() {
    assert_eq!(Face::default(), Face::PositiveX);
    assert_eq!(Face::TEX2D(), Face::default());
    assert_eq!(Face::NegativeZ.raw(), 5);
    assert_eq!(Filter::Linear.raw(), 1);
    assert_eq!(Wrap::MirroredRepeat.raw(), 3);
    assert_eq!(Unit::Unit2.raw(), 2);
}
