use citro3d::render::transfer::{Flags, Format};
use citro3d::render::{
    ClearFlags, ColorFormat, DepthFormat, FramebufferFormat, RenderPass, TargetParams,
};
use citro3d::texenv::Stage;
use citro3d::Error;

#[test]
fn target_parameters() {
    let p = TargetParams::new(240, 400, FramebufferFormat::Bgr8, Some(DepthFormat::Depth24Stencil8))
        .unwrap();
    assert_eq!((p.width, p.height), (240, 400));
    assert!(matches!(p.color_format, ColorFormat::RGB8));
    assert_eq!(p.depth, 3);
    assert_eq!(p.transfer_flags, (1 << 8) | (1 << 12));
    let q = TargetParams::new(10, 10, FramebufferFormat::Rgb5A1, None).unwrap();
    assert_eq!(q.depth, -1);
    assert_eq!(q.transfer_flags, (3 << 8) | (3 << 12));
    assert!(matches!(
        TargetParams::new(1 << 31, 10, FramebufferFormat::Rgba8, None),
        Err(Error::InvalidSize)
    ));
}

#[test]
fn transfer_flags() {
    let f = Flags::default().in_format(Format::RGBA4).out_format(Format::RGB565);
    assert_eq!(f.bits(), (4 << 8) | (2 << 12));
    assert!(matches!(Format::from(ColorFormat::RGBA5551), Format::RGB5A1));
    assert!(matches!(Format::from(ColorFormat::RGB565), Format::RGB565));
}

#[test]
fn clear_flags() {
    assert_eq!(ClearFlags::COLOR().union(ClearFlags::DEPTH()), ClearFlags::ALL());
    assert!(ClearFlags::ALL().contains(ClearFlags::DEPTH()));
    assert!(!ClearFlags::COLOR().contains(ClearFlags::DEPTH()));
    assert_eq!(ClearFlags::ALL().bits(), 3);
}

#[test]
fn color_formats() {
    assert!(matches!(ColorFormat::from(FramebufferFormat::Rgba8), ColorFormat::RGBA8));
    assert!(matches!(ColorFormat::from(FramebufferFormat::Rgb565), ColorFormat::RGB565));
    assert!(matches!(ColorFormat::from(FramebufferFormat::Rgba4), ColorFormat::RGBA4));
    assert_eq!(DepthFormat::Depth16.as_raw(), 0);
    assert_eq!(DepthFormat::Depth24.as_raw(), 2);
}

#[test]
fn render_pass_state() {
    let mut pass = RenderPass::new();
    assert!(!pass.is_program_bound());
    pass.bind_program();
    assert!(pass.is_program_bound());
    let stage = Stage::new(2).unwrap();
    let env = pass.texenv(stage);
    assert_eq!(env.as_raw().color, 0xFFFF_FFFF);
    *env = env.color(7);
    assert_eq!(pass.texenv(stage).as_raw().color, 7);
    assert_eq!(pass.texenv(Stage::new(3).unwrap()).as_raw().color, 0xFFFF_FFFF);
}
