//! General-purpose error and result types returned by public APIs of this crate.

use vstd::prelude::*;

verus! {

/// The common result type returned by `citro3d` functions.
pub type Result<T> = core::result::Result<T, Error>;

/// The common error type that may be returned by `citro3d` functions.
#[derive(Debug)]
pub enum Error {
    /// C3D error code.
    System(libc::c_int),
    /// A C3D object or context could not be initialized.
    FailedToInitialize,
    /// A size parameter was specified that cannot be converted to the proper type.
    InvalidSize,
    /// Failed to select the given render target for drawing to.
    InvalidRenderTarget,
    /// Indicates that a reference could not be obtained because a lock is already
    /// held on the requested object.
    LockHeld,
    /// Indicates that too many vertex attributes were registered (max 12 supported).
    TooManyAttributes,
    /// Indicates that too many vertex buffer objects were registered (max 12 supported).
    TooManyBuffers,
    /// The given memory could not be converted to a physical address for sharing
    /// with the GPU.
    InvalidMemoryLocation,
    /// The given name was not valid for the requested purpose.
    InvalidName,
    /// The requested resource could not be found.
    NotFound,
    /// Attempted to use an index that was out of bounds.
    IndexOutOfBounds {
        /// The index used.
        idx: libc::c_int,
        /// The length of the collection.
        len: libc::c_int,
    },
}

impl From<core::num::TryFromIntError> for Error {
    fn from(err: core::num::TryFromIntError) -> (r: Self)
        ensures
            r == Error::InvalidSize,
    {
        Error::InvalidSize
    }
}

impl vstd::std_specs::convert::FromSpecImpl<core::num::TryFromIntError> for Error {
    open spec fn obeys_from_spec() -> bool {
        true
    }

    open spec fn from_spec(v: core::num::TryFromIntError) -> Error {
        Error::InvalidSize
    }
}

} // verus!
