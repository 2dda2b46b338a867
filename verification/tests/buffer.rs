use citro3d::buffer::{Buffer, Index, Info, Primitive};
use citro3d::buffers;
use citro3d::Error;

#[test]
fn buffer_from_elements() {
    let b = Buffer::new(&[[0.0f32; 3]; 5]);
    assert_eq!(b.len(), 5);
    assert_eq!(b.stride(), 12);
}

#[test]
fn buffer_with_stride() {
    let data = [0u8; 24];
    let b = Buffer::new_with_stride(&data, 8).unwrap();
    assert_eq!(b.len(), 3);
    assert_eq!(b.stride(), 8);
    assert!(Buffer::new_with_stride(&data, 5).is_err());
    assert!(Buffer::new_in_linear_with_stride(10, 4).is_err());
    assert_eq!(Buffer::new_in_linear_with_stride(12, 4).unwrap().len(), 3);
}

#[test]
fn info_add_results() {
    let mut info = Info::new();
    assert_eq!(info.len(), 0);
    let b = Buffer::new_in_linear_with_stride(40, 4).unwrap();
    assert!(matches!(info.add(b, -1), Err(Error::TooManyBuffers)));
    assert!(matches!(info.add(b, -2), Err(Error::InvalidMemoryLocation)));
    assert!(matches!(info.add(b, -7), Err(Error::System(-7))));
    assert_eq!(info.len(), 0);
    assert!(info.add(b, 0).is_ok());
    assert_eq!(info.len(), 10);
    let c = Buffer::new_in_linear_with_stride(8, 4).unwrap();
    assert!(info.add(c, 1).is_ok());
    assert_eq!(info.len(), 10);
}

#[test]
fn info_len_truncates_to_u16() {
    let mut info = Info::new();
    let b = Buffer::new_in_linear_with_stride(70_000, 1).unwrap();
    assert!(info.add(b, 0).is_ok());
    assert_eq!(info.len(), (70_000u32 % 65_536) as u16);
}

#[test]
fn index_types() {
    assert_eq!(<u8 as Index>::index_type(), 0);
    assert_eq!(<u16 as Index>::index_type(), 1);
}

#[test]
fn primitive_values() {
    assert_eq!(Primitive::Triangles.raw(), 0);
    assert_eq!(Primitive::TriangleStrip.raw(), 0x100);
    assert_eq!(Primitive::TriangleFan.raw(), 0x200);
    assert_eq!(Primitive::GeometryPrim.raw(), 0x300);
    assert_eq!(buffers::Primitive::GeometryPrim.raw(), 0x300);
}

#[test]
fn bufinfo_add_results() {
    let i = buffers::Index::from_add_result(2, 9).unwrap();
    assert_eq!(i.as_raw(), 2);
    assert_eq!(i.size(), 9);
    assert!(matches!(buffers::Index::from_add_result(-4, 9), Err(Error::System(-4))));
    assert!(matches!(
        buffers::Index::from_add_result(0, usize::MAX),
        Err(Error::InvalidSize)
    ));
}

#[test]
fn buf_info_stride_and_add() {
    assert_eq!(buffers::BufInfo::stride::<[f32; 3]>().unwrap(), 12);
    assert_eq!(buffers::BufInfo::stride::<u8>().unwrap(), 1);
    let mut info = buffers::BufInfo::new();
    let data = [0u16; 5];
    let idx = info.add(&data, 3).unwrap();
    assert_eq!(idx.as_raw(), 3);
    assert_eq!(idx.size(), 5);
    assert!(matches!(info.add(&data, -1), Err(Error::System(-1))));
}

#[test]
fn buffer_with_stride_wider_than_isize() {
    let b = Buffer::new_with_stride(&[], usize::MAX).unwrap();
    assert_eq!(b.len(), 0);
    assert_eq!(b.stride(), -1);
    assert!(Buffer::new_with_stride(&[0u8; 3], usize::MAX).is_err());
}

#[test]
fn integer_conversion_errors_are_invalid_sizes() {
    let err = u8::try_from(300u32).unwrap_err();
    assert!(matches!(Error::from(err), Error::InvalidSize));
}

#[test]
fn linear_buffer_with_stride_wider_than_isize() {
    assert!(Buffer::new_in_linear_with_stride(10, usize::MAX).is_err());
    assert!(Buffer::new_in_linear_with_stride(10, 5).is_ok());
}
