//! Traits that only this crate may implement.

use vstd::prelude::*;

verus! {

/// Marks the integer types that can serve as draw indices.
pub trait Sealed {

}

impl Sealed for u8 {

}

impl Sealed for u16 {

}

} // verus!
