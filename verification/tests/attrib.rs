use citro3d::attrib::{Format, Info, Permutation, Register};
use citro3d::Error;

#[test]
fn permutation_from_layout_maps_fields_to_registers() {
    let p = Permutation::from_layout(&[Register::V0, Register::V2]).unwrap();
    assert_eq!(p.bits(), 0x20);
    assert_eq!(p.attrib_count(), 2);

    let n = Permutation::from_layout(&[Register::V1]).unwrap();
    assert_eq!(n.bits(), 0x1);
    assert_eq!(n.attrib_count(), 1);
}

#[test]
fn permutation_of_full_layout() {
    let regs = [
        Register::V15, Register::V14, Register::V13, Register::V12, Register::V11, Register::V10,
        Register::V9, Register::V8, Register::V7, Register::V6, Register::V5, Register::V4,
        Register::V3, Register::V2, Register::V1, Register::V0,
    ];
    let p = Permutation::from_layout(&regs).unwrap();
    assert_eq!(p.bits(), 0x0123_4567_89AB_CDEF);
    assert_eq!(p.attrib_count(), 16);
}

#[test]
fn permutation_of_empty_layout() {
    let p = Permutation::from_layout(&[]).unwrap();
    assert_eq!(p.bits(), 0);
    assert_eq!(p.attrib_count(), 0);
}

#[test]
fn permutation_rejects_long_layout() {
    let regs = [Register::V0; 17];
    match Permutation::from_layout(&regs) {
        Err(Error::IndexOutOfBounds { idx, len }) => {
            assert_eq!(idx, 16);
            assert_eq!(len, 16);
        }
        other => panic!("unexpected {:?}", other),
    }
}

#[test]
fn format_raw_values() {
    assert_eq!(u8::from(Format::Byte), 0);
    assert_eq!(u8::from(Format::UnsignedByte), 1);
    assert_eq!(u8::from(Format::Short), 2);
    assert_eq!(u8::from(Format::Float), 3);
    assert_eq!(Register::V7.raw(), 7);
}

#[test]
fn loader_checks() {
    assert!(Info::check_loader_count(4).is_ok());
    assert!(matches!(Info::check_loader_count(5), Err(Error::InvalidSize)));
    assert_eq!(Info::loader_index(3).unwrap().value(), 3);
    assert!(matches!(Info::loader_index(-1), Err(Error::TooManyAttributes)));
    assert!(matches!(Info::loader_index(256), Err(Error::TooManyAttributes)));
}

#[test]
fn info_permutation() {
    let info = Info::from_raw(0x210, 3);
    let p = info.permutation();
    assert_eq!(p.bits(), 0x210);
    assert_eq!(p.attrib_count(), 3);
    assert_eq!(info.attr_count(), 3);
    assert_eq!(Info::from_raw(0, 0x101).permutation().attrib_count(), 1);
}

#[test]
fn empty_attribute_info() {
    let info = Info::new();
    assert_eq!(info.attr_count(), 0);
    assert_eq!(info.permutation().bits(), 0);
    let d = Info::default();
    assert_eq!(d.attr_count(), 0);
    assert_eq!(d.permutation().attrib_count(), 0);
}
