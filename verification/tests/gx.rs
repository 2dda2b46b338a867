use citro3d::gx::{
    GX_TRANSFER_FLIP_VERT, GX_TRANSFER_IN_FORMAT, GX_TRANSFER_OUT_FORMAT, GX_TRANSFER_OUT_TILED,
    GX_TRANSFER_RAW_COPY, GX_TRANSFER_SCALING,
};

#[test]
fn transfer_bits() {
    assert_eq!(GX_TRANSFER_FLIP_VERT(true), 1);
    assert_eq!(GX_TRANSFER_FLIP_VERT(false), 0);
    assert_eq!(GX_TRANSFER_OUT_TILED(true), 2);
    assert_eq!(GX_TRANSFER_OUT_TILED(false), 0);
    assert_eq!(GX_TRANSFER_RAW_COPY(true), 8);
    assert_eq!(GX_TRANSFER_RAW_COPY(false), 0);
    assert_eq!(GX_TRANSFER_IN_FORMAT(3), 0x300);
    assert_eq!(GX_TRANSFER_OUT_FORMAT(4), 0x4000);
    assert_eq!(GX_TRANSFER_SCALING(2), 0x0200_0000);
}
