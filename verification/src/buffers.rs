//! Registration of vertex data with the global buffer info, and the handle to a
//! registered VBO.

use vstd::prelude::*;

use crate::error::Error;

verus! {

/// A handle to VBO data registered with the buffer info: its slot, and how many
/// elements it holds.
#[derive(Debug, Clone, Copy)]
pub struct Index {
    index: libc::c_int,
    size: libc::c_int,
}

impl Index {
    /// The slot of the registered data.
    pub closed spec fn spec_index(self) -> libc::c_int {
        self.index
    }

    /// The number of elements of the registered data.
    pub closed spec fn spec_size(self) -> libc::c_int {
        self.size
    }

    /// The handle of VBO data of `len` elements, from what `BufInfo_Add` answered.
    ///
    /// # Errors
    ///
    /// * [`Error::System`] with the code if the registration failed (`res < 0`).
    /// * [`Error::InvalidSize`] if `len` does not fit in a C `int`.
    pub fn from_add_result(res: libc::c_int, len: usize) -> (r: Result<Index, Error>)
        ensures
            res < 0 ==> (r matches Err(e) && e == Error::System(res)),
            res >= 0 && len > i32::MAX ==> (r matches Err(e) && e == Error::InvalidSize),
            res >= 0 && len <= i32::MAX ==> (r matches Ok(i) && i.spec_index() == res
                && i.spec_size() == len),
    {
        if res < 0 {
            return Err(Error::System(res));
        }
        if len > i32::MAX as usize {
            return Err(Error::InvalidSize);
        }
        Ok(Index { index: res, size: len as i32 })
    }

    /// The slot of the registered data.
    pub fn as_raw(&self) -> (r: libc::c_int)
        ensures
            r == self.spec_index(),
    {
        self.index
    }

    /// The number of elements of the registered data.
    pub fn size(&self) -> (r: libc::c_int)
        ensures
            r == self.spec_size(),
    {
        self.size
    }
}

/// The global buffer info, through which VBO data is registered for drawing.
#[derive(Debug)]
pub struct BufInfo {
    _private: (),
}

impl BufInfo {
    /// The buffer info, once the global one was set up (`BufInfo_Init`).
    pub fn new() -> (r: BufInfo) {
        BufInfo { _private: () }
    }

    /// The stride, in bytes, with which elements of `T` are registered.
    ///
    /// # Errors
    ///
    /// [`Error::InvalidSize`] if the size of `T` does not fit in a C `int`.
    pub fn stride<T>() -> (r: Result<libc::c_int, Error>)
        ensures
            r is Ok <==> vstd::layout::size_of::<T>() <= i32::MAX,
            r matches Ok(s) ==> s == vstd::layout::size_of::<T>(),
            r matches Err(e) ==> e == Error::InvalidSize,
    {
        let size = core::mem::size_of::<T>();
        if size > i32::MAX as usize {
            return Err(Error::InvalidSize);
        }
        Ok(size as i32)
    }

    /// The handle of `vbo_data` after `BufInfo_Add` answered `res` to its registration.
    ///
    /// # Errors
    ///
    /// * [`Error::System`] with the code if the registration failed (`res < 0`).
    /// * [`Error::InvalidSize`] if the data has more elements than a C `int` counts.
    pub fn add<T>(&mut self, vbo_data: &[T], res: libc::c_int) -> (r: Result<Index, Error>)
        ensures
            res < 0 ==> (r matches Err(e) && e == Error::System(res)),
            res >= 0 && vbo_data@.len() > i32::MAX ==> (r matches Err(e) && e
                == Error::InvalidSize),
            res >= 0 && vbo_data@.len() <= i32::MAX ==> (r matches Ok(i) && i.spec_index() == res
                && i.spec_size() == vbo_data@.len()),
    {
        Index::from_add_result(res, vbo_data.len())
    }
}

/// The geometric primitive to draw.
#[derive(Clone, Copy, Debug, PartialEq, Eq)]
pub enum Primitive {
    /// Triangles.
    Triangles,
    /// Triangle strip.
    TriangleStrip,
    /// Triangle fan.
    TriangleFan,
    /// Geometry shader primitive.
    GeometryPrim,
}

impl Primitive {
    /// The raw `GPU_Primitive_t` value that encodes this variant.
    pub open spec fn spec_raw(self) -> u32 {
        match self {
            Primitive::Triangles => 0x0000,
            Primitive::TriangleStrip => 0x0100,
            Primitive::TriangleFan => 0x0200,
            Primitive::GeometryPrim => 0x0300,
        }
    }

    /// Each variant encodes to the `GPU_Primitive_t` value that the hardware defines for it.
    pub proof fn lemma_raw_values()
        ensures
            Primitive::Triangles.spec_raw() == 0x0000,
            Primitive::TriangleStrip.spec_raw() == 0x0100,
            Primitive::TriangleFan.spec_raw() == 0x0200,
            Primitive::GeometryPrim.spec_raw() == 0x0300,
    {
    }

    /// The raw `GPU_Primitive_t` value of this variant.
    pub fn raw(self) -> (r: u32)
        ensures
            r == self.spec_raw(),
    {
        match self {
            Primitive::Triangles => 0x0000,
            Primitive::TriangleStrip => 0x0100,
            Primitive::TriangleFan => 0x0200,
            Primitive::GeometryPrim => 0x0300,
        }
    }
}
} // verus!
