//! Helpers for the GX display-transfer flag word (`<3ds/gpu/gx.h>`).
#![allow(non_snake_case)]

use vstd::prelude::*;

verus! {

/// Flag word bit that flips the image vertically during a transfer.
pub fn GX_TRANSFER_FLIP_VERT(flip: bool) -> (r: u32)
    ensures
        r == (if flip { 1u32 } else { 0u32 }),
{
    if flip { 1 } else { 0 }
}

/// Flag word bit that selects tiled output.
pub fn GX_TRANSFER_OUT_TILED(tiled: bool) -> (r: u32)
    ensures
        r == (if tiled { 2u32 } else { 0u32 }),
{
    let b: u32 = if tiled { 1 } else { 0 };
    proof {
        assert(b <= 1 ==> (b << 1u32) == b * 2) by (bit_vector);
    }
    b << 1
}

/// Flag word bit that requests a raw copy.
pub fn GX_TRANSFER_RAW_COPY(raw_copy: bool) -> (r: u32)
    ensures
        r == (if raw_copy { 8u32 } else { 0u32 }),
{
    let b: u32 = if raw_copy { 1 } else { 0 };
    proof {
        assert(b <= 1 ==> (b << 3u32) == b * 8) by (bit_vector);
    }
    b << 3
}

/// Flag word field that holds the input format (bits 8 and up).
pub fn GX_TRANSFER_IN_FORMAT(format: u32) -> (r: u32)
    ensures
        r == format << 8u32,
{
    format << 8
}

/// Flag word field that holds the output format (bits 12 and up).
pub fn GX_TRANSFER_OUT_FORMAT(format: u32) -> (r: u32)
    ensures
        r == format << 12u32,
{
    format << 12
}

/// Flag word field that holds the scaling mode (bits 24 and up).
pub fn GX_TRANSFER_SCALING(scale: u32) -> (r: u32)
    ensures
        r == scale << 24u32,
{
    scale << 24
}

} // verus!
