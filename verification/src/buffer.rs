//! Configure vertex buffer objects to be sent to the GPU for rendering.
//!
//! See the [`attrib`](crate::attrib) module for details on how to describe the shape
//! and type of the VBO data.

use vstd::prelude::*;

use crate::error::Error;

verus! {

/// A handle to a VBO buffer, to be used with [`Info`]: how many vertices it holds
/// and how many bytes each vertex takes.
#[derive(Clone, Copy, Debug)]
pub struct Buffer {
    stride: isize,
    len: usize,
}

impl Buffer {
    /// The number of bytes per vertex.
    pub closed spec fn spec_stride(self) -> isize {
        self.stride
    }

    /// The number of vertices.
    pub closed spec fn spec_len(self) -> usize {
        self.len
    }

    /// Describe a buffer holding `data`, one element of `T` per vertex.
    pub fn new<T: Copy>(data: &[T]) -> (r: Buffer)
        ensures
            r.spec_len() == data@.len(),
            r.spec_stride() == vstd::layout::size_of::<T>(),
    {
        // The size of a type never exceeds `isize::MAX`.
        vstd::layout::layout_for_type_is_valid::<T>();
        let stride = core::mem::size_of::<T>();
        Buffer { stride: stride as isize, len: data.len() }
    }

    /// Describe a buffer holding the bytes of `data`, `stride` bytes per vertex.
    ///
    /// # Errors
    /// * If the length of `data` is not a mutliple of `stride`
    pub fn new_with_stride(data: &[u8], stride: usize) -> (r: core::result::Result<Buffer, ()>)
        requires
            0 < stride,
        ensures
            data@.len() % (stride as nat) != 0 <==> r is Err,
            r matches Ok(b) ==> b.spec_len() == data@.len() / (stride as nat) && b.spec_stride()
                == stride as isize,
    {
        if data.len() % stride != 0 {
            return Err(());
        }
        Ok(Buffer { len: data.len() / stride, stride: #[verifier::truncate] (stride as isize) })
    }

    /// Describe an existing buffer of `len` elements of `stride` bytes each, one
    /// element per vertex.
    pub fn new_in_linear(stride: usize, len: usize) -> (r: Buffer)
        requires
            stride <= isize::MAX,
        ensures
            r.spec_len() == len,
            r.spec_stride() == stride,
    {
        Buffer { stride: stride as isize, len }
    }

    /// Describe an existing buffer of `buf_len` bytes as vertices of `stride` bytes each.
    ///
    /// # Errors
    /// * If `buf_len` is not a mutliple of `stride`
    pub fn new_in_linear_with_stride(buf_len: usize, stride: usize) -> (r: core::result::Result<
        Buffer,
        (),
    >)
        requires
            0 < stride,
            buf_len % stride == 0 ==> stride <= isize::MAX,
        ensures
            buf_len % stride != 0 <==> r is Err,
            r matches Ok(b) ==> b.spec_len() == buf_len / stride && b.spec_stride() == stride,
    {
        if buf_len % stride != 0 {
            return Err(());
        }
        Ok(Buffer { len: buf_len / stride, stride: stride as isize })
    }

    /// The number of bytes per vertex.
    pub fn stride(&self) -> (r: isize)
        ensures
            r == self.spec_stride(),
    {
        self.stride
    }

    /// The number of vertices.
    pub fn len(&self) -> (r: usize)
        ensures
            r == self.spec_len(),
    {
        self.len
    }
}

/// The result code `BufInfo_Add` reports when a VBO was registered.
pub open spec fn add_succeeded(res: libc::c_int) -> bool {
    res >= 0
}

/// The error that a failed `BufInfo_Add` result code stands for.
pub open spec fn add_error(res: libc::c_int) -> Error {
    if res == -1 {
        Error::TooManyBuffers
    } else if res == -2 {
        Error::InvalidMemoryLocation
    } else {
        Error::System(res)
    }
}

/// Vertex buffer info: the buffers registered so far, in registration order.
#[derive(Clone, Debug)]
pub struct Info {
    buffers: Vec<Buffer>,
}

impl Info {
    /// The registered buffers.
    pub closed spec fn spec_buffers(self) -> Seq<Buffer> {
        self.buffers@
    }

    /// Construct buffer info without any registered data.
    pub fn new() -> (r: Info)
        ensures
            r.spec_buffers() == Seq::<Buffer>::empty(),
    {
        Info { buffers: Vec::new() }
    }

    /// The number of vertices of the first registered buffer, or 0 if there is none.
    pub fn len(&self) -> (r: u16)
        ensures
            r == (if self.spec_buffers().len() == 0 {
                0u16
            } else {
                #[verifier::truncate]
                (self.spec_buffers()[0].spec_len() as u16)
            }),
    {
        if self.buffers.len() == 0 {
            0
        } else {
            #[verifier::truncate]
            (self.buffers[0].len() as u16)
        }
    }

    /// Record the outcome of registering `vbo_buffer` with `BufInfo_Add`, which
    /// answered `res`: on success the buffer is kept (so that its data outlives
    /// the draw calls), otherwise the code is turned into an [`Error`].
    pub fn add(&mut self, vbo_buffer: Buffer, res: libc::c_int) -> (r: Result<(), Error>)
        ensures
            add_succeeded(res) <==> r is Ok,
            r is Ok ==> final(self).spec_buffers() == old(self).spec_buffers().push(vbo_buffer),
            r matches Err(e) ==> e == add_error(res) && final(self).spec_buffers() == old(
                self,
            ).spec_buffers(),
    {
        if res <= -3 {
            Err(Error::System(res))
        } else if res == -2 {
            Err(Error::InvalidMemoryLocation)
        } else if res == -1 {
            Err(Error::TooManyBuffers)
        } else {
            self.buffers.push(vbo_buffer);
            Ok(())
        }
    }
}

/// A type that can be used as an index for indexed drawing.
pub trait Index {
    /// The data type of the index, as used by `C3D_DrawElements`'s `type_` parameter.
    fn index_type() -> (r: libc::c_int)
        ensures
            0 <= r <= 1,
    ;
}

impl Index for u8 {
    fn index_type() -> (r: libc::c_int)
        ensures
            r == 0,
    {
        0
    }
}

impl Index for u16 {
    fn index_type() -> (r: libc::c_int)
        ensures
            r == 1,
    {
        1
    }
}

/// The geometric primitive to draw (i.e. what shapes the buffer data describes).
#[derive(Clone, Copy, Debug, PartialEq, Eq)]
pub enum Primitive {
    /// Draw triangles (3 vertices per triangle).
    Triangles,
    /// Draw a triangle strip (each vertex shared by 1-3 triangles).
    TriangleStrip,
    /// Draw a triangle fan (first vertex shared by all triangles).
    TriangleFan,
    /// Geometry primitive. Can be used for more complex use cases like geometry
    /// shaders that output custom primitives.
    GeometryPrim,
}

impl Primitive {
    /// The raw `GPU_Primitive_t` value that encodes this variant.
    pub open spec fn spec_raw(self) -> u16 {
        match self {
            Primitive::Triangles => 0x0000,
            Primitive::TriangleStrip => 0x0100,
            Primitive::TriangleFan => 0x0200,
            Primitive::GeometryPrim => 0x0300,
        }
    }

    /// Each variant encodes to the `GPU_Primitive_t` value that the hardware defines for it.
    pub proof fn lemma_raw_values()
        ensures
            Primitive::Triangles.spec_raw() == 0x0000,
            Primitive::TriangleStrip.spec_raw() == 0x0100,
            Primitive::TriangleFan.spec_raw() == 0x0200,
            Primitive::GeometryPrim.spec_raw() == 0x0300,
    {
    }

    /// The raw `GPU_Primitive_t` value of this variant.
    pub fn raw(self) -> (r: u16)
        ensures
            r == self.spec_raw(),
    {
        match self {
            Primitive::Triangles => 0x0000,
            Primitive::TriangleStrip => 0x0100,
            Primitive::TriangleFan => 0x0200,
            Primitive::GeometryPrim => 0x0300,
        }
    }
}
} // verus!
