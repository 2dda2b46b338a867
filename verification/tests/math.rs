use citro3d::math::{
    CoordinateOrientation, FQuat, FVec3, FVec4, IVec, Matrix, Matrix4, MatrixBuilder, Projection,
    ScreenOrientation, F32_ONE_BITS,
};

fn bits(v: [f32; 4]) -> [u32; 4] {
    [v[0].to_bits(), v[1].to_bits(), v[2].to_bits(), v[3].to_bits()]
}

#[test]
fn identity_rows() {
    let m = Matrix4::identity();
    let rows = m.rows_xyzw();
    for i in 0..4 {
        for j in 0..4 {
            let expected = if i == j { 1.0f32 } else { 0.0 };
            assert_eq!(f32::from_bits(rows[i][j]), expected);
        }
    }
    assert_eq!(m.as_raw()[0][3], F32_ONE_BITS);
    assert_eq!(Matrix::identity().as_raw(), m.as_raw());
    assert_eq!(*Matrix::zero().as_raw(), [[0u32; 4]; 4]);
}

#[test]
fn rows_reverse_wzyx_order() {
    let raw = [bits([4.0, 3.0, 2.0, 1.0]), bits([8.0, 7.0, 6.0, 5.0]), [0; 4], [1, 2, 3, 4]];
    let m = Matrix4::from_raw(raw);
    let rows = m.rows_xyzw();
    assert_eq!(rows[0], bits([1.0, 2.0, 3.0, 4.0]));
    assert_eq!(rows[1], bits([5.0, 6.0, 7.0, 8.0]));
    assert_eq!(rows[3], [4, 3, 2, 1]);
    let wzyx = m.rows_wzyx();
    assert_eq!(*wzyx[1].as_raw(), raw[1]);
    assert_eq!(m.into_raw(), raw);
}

#[test]
fn matrix_raw_mut() {
    let mut m = Matrix4::zero();
    m.as_raw_mut()[2][1] = F32_ONE_BITS;
    assert_eq!(m.as_raw()[2][1], F32_ONE_BITS);
    assert_eq!(*Matrix4::zero().as_raw(), [[0u32; 4]; 4]);
}

#[test]
fn vectors_keep_raw_words() {
    let v = FVec4::from_raw(bits([4.0, 3.0, 2.0, 1.0]));
    assert_eq!(f32::from_bits(v.as_raw()[3]), 1.0);
    let w = FVec3::from_raw([0, 1, 2, 3]);
    assert_eq!(*w.as_raw(), [0, 1, 2, 3]);
    assert_eq!(*FQuat::from_raw([9, 8, 7, 6]).as_raw(), [9, 8, 7, 6]);
}

#[test]
fn ivec_components() {
    let v = IVec::new(1, 2, 3, 4);
    assert_eq!((v.x(), v.y(), v.z(), v.w()), (1, 2, 3, 4));
    assert_eq!(IVec::from_raw(0x0403_0201), v);
    assert_eq!(v.as_raw(), 0x0403_0201);
}

#[test]
fn projection_configuration() {
    let mut p = Projection::new(7u8);
    assert_eq!(p.orientation(), CoordinateOrientation::RightHanded);
    assert_eq!(p.rotation(), ScreenOrientation::Rotated);
    p.coordinates(CoordinateOrientation::LeftHanded).screen(ScreenOrientation::NoRotation);
    assert_eq!(p.orientation(), CoordinateOrientation::LeftHanded);
    assert_eq!(p.rotation(), ScreenOrientation::NoRotation);
    assert_eq!(*p.inner(), 7);
    assert!(CoordinateOrientation::LeftHanded.is_left_handed());
    assert!(!CoordinateOrientation::default().is_left_handed());
    assert_eq!(ScreenOrientation::default(), ScreenOrientation::Rotated);
}

#[test]
fn projection_matrix_builders() {
    let mut p = Projection::new(());
    assert_eq!(p.perspective_builder(false), MatrixBuilder::PerspTilt);
    assert_eq!(p.perspective_builder(true), MatrixBuilder::PerspStereoTilt);
    assert_eq!(p.orthographic_builder(), MatrixBuilder::OrthoTilt);
    p.screen(ScreenOrientation::NoRotation);
    assert_eq!(p.perspective_builder(false), MatrixBuilder::Persp);
    assert_eq!(p.perspective_builder(true), MatrixBuilder::PerspStereo);
    assert_eq!(p.orthographic_builder(), MatrixBuilder::Ortho);
}
