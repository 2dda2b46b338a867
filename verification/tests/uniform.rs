use citro3d::math::{FVec4, IVec, Matrix4};
use citro3d::uniform::{Index, Uniform, UniformWrite};

fn v(n: u32) -> FVec4 {
    FVec4::from_raw([n, n, n, n])
}

#[test]
fn ranges_and_lengths() {
    let f = Uniform::Float(v(0));
    let r = f.index_range();
    assert_eq!((r.start, r.end), (Index::from(0), Index::from(0x60)));
    let r = Uniform::Int(IVec::from_raw(0)).index_range();
    assert_eq!((r.start, r.end), (Index::from(0x60), Index::from(0x64)));
    let r = Uniform::Bool(true).index_range();
    assert_eq!((r.start, r.end), (Index::from(0x68), Index::from(0x79)));
    assert_eq!(f.len(), 1);
    assert_eq!(Uniform::Float2([v(0), v(1)]).len(), 2);
    assert_eq!(Uniform::Float3([v(0), v(1), v(2)]).len(), 3);
    assert_eq!(Uniform::Float4(Matrix4::identity()).len(), 4);
    assert_eq!(Uniform::Bool(false).len(), 1);
    assert_eq!(i32::from(Index::from(0x42)), 0x42);
}

#[test]
fn binding_checks() {
    let m = Uniform::Float4(Matrix4::identity());
    assert!(m.can_bind(Index::from(0x5C)));
    assert!(!m.can_bind(Index::from(0x5D)));
    assert!(!Uniform::Int(IVec::from_raw(0)).can_bind(Index::from(0x64)));
    assert!(Uniform::Int(IVec::from_raw(0)).can_bind(Index::from(0x63)));
    assert!(!Uniform::Bool(true).can_bind(Index::from(0x60)));
    assert!(Uniform::Bool(true).can_bind(Index::from(0x78)));
}

#[test]
fn binding_writes_consecutive_registers() {
    let writes = Uniform::Float3([v(1), v(2), v(3)]).bind(Index::from(4));
    assert_eq!(writes.len(), 3);
    for (k, w) in writes.iter().enumerate() {
        match w {
            UniformWrite::Float { index, value } => {
                assert_eq!(*index, 4 + k as i32);
                assert_eq!(*value.as_raw(), [k as u32 + 1; 4]);
            }
            other => panic!("unexpected {:?}", other),
        }
    }
}

#[test]
fn binding_matrix_writes_rows() {
    let m = Matrix4::from_raw([[1; 4], [2; 4], [3; 4], [4; 4]]);
    let writes = Uniform::Float4(m).bind(Index::from(0));
    assert_eq!(writes.len(), 4);
    match writes[3] {
        UniformWrite::Float { index, value } => {
            assert_eq!(index, 3);
            assert_eq!(*value.as_raw(), [4; 4]);
        }
        other => panic!("unexpected {:?}", other),
    }
}

#[test]
fn binding_scalar_uniforms() {
    let w = Uniform::Bool(true).bind(Index::from(0x70));
    assert!(matches!(w[..], [UniformWrite::Bool { index: 0x70, value: true }]));
    let w = Uniform::Int(IVec::new(1, 2, 3, 4)).bind(Index::from(0x61));
    match w[..] {
        [UniformWrite::Int { index, value }] => {
            assert_eq!(index, 0x61);
            assert_eq!(value.y(), 2);
        }
        _ => panic!("unexpected {:?}", w),
    }
}

#[test]
fn uniform_conversions() {
    let m = Matrix4::identity();
    assert!(matches!(Uniform::from(m), Uniform::Float4(_)));
    assert!(matches!(Uniform::from(&m), Uniform::Float4(_)));
    let v = FVec4::from_raw([1, 2, 3, 4]);
    assert!(matches!(Uniform::from(v), Uniform::Float(f) if *f.as_raw() == [1, 2, 3, 4]));
    assert!(matches!(Uniform::from([v, v]), Uniform::Float2(_)));
    assert!(matches!(Uniform::from([v, v, v]), Uniform::Float3(_)));
    assert!(matches!(Uniform::from(true), Uniform::Bool(true)));
    let i = IVec::new(1, 2, 3, 4);
    assert!(matches!(Uniform::from(i), Uniform::Int(x) if x == i));
}
