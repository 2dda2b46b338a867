//! PICA200 shader libraries (DVLB) and the entrypoints they hold. A library is
//! parsed from a shader binary (shbin), whose bytes must form whole, aligned 32-bit
//! words.

use vstd::prelude::*;

use crate::error::Error;

verus! {

/// The kind of a shader entrypoint.
#[derive(Clone, Copy, Debug, PartialEq, Eq)]
pub enum Type {
    /// A vertex shader.
    Vertex,
    /// A geometry shader.
    Geometry,
}

impl Type {
    /// The raw `GPU_SHADER_TYPE` value.
    pub open spec fn spec_raw(self) -> u8 {
        match self {
            Type::Vertex => 0,
            Type::Geometry => 1,
        }
    }

    /// Each kind of shader encodes to the `GPU_SHADER_TYPE` value that the hardware
    /// defines for it: vertex shaders 0, geometry shaders 1.
    pub proof fn lemma_raw_values()
        ensures
            Type::Vertex.spec_raw() == 0,
            Type::Geometry.spec_raw() == 1,
    {
    }

    /// The raw `GPU_SHADER_TYPE` value.
    pub fn raw(self) -> (r: u8)
        ensures
            r == self.spec_raw(),
    {
        match self {
            Type::Vertex => 0,
            Type::Geometry => 1,
        }
    }
}

/// Why shader binary bytes could not be viewed as 32-bit words.
#[derive(Clone, Copy, Debug, PartialEq, Eq, Structural)]
pub enum CastError {
    /// The bytes do not start at a 4-byte boundary.
    Misaligned,
    /// The number of bytes is not a multiple of 4.
    Slop,
    /// Any other reason.
    Other,
}

/// The bytes of `bytes` viewed in place as 32-bit words (`bytemuck::try_cast_slice`).
/// Its contract claims what the crate documents and its source shows: the words
/// cover exactly the bytes, a length that is not a multiple of 4 is refused (as
/// slop, unless the bytes are also misaligned), and no other failure occurs. What
/// the words hold depends on the machine's byte order and is not stated.
#[verifier::external_body]
fn cast_to_words(bytes: &[u8]) -> (r: Result<&[u32], CastError>)
    ensures
        r matches Ok(w) ==> w@.len() * 4 == bytes@.len(),
        r matches Err(e) ==> e == CastError::Misaligned || (e == CastError::Slop && bytes@.len() % 4
            != 0),
        bytes@.len() % 4 != 0 ==> r is Err,
{
    match bytemuck::try_cast_slice::<u8, u32>(bytes) {
        Ok(words) => Ok(words),
        Err(bytemuck::PodCastError::TargetAlignmentGreaterAndInputNotAligned) => Err(
            CastError::Misaligned,
        ),
        Err(bytemuck::PodCastError::OutputSliceWouldHaveSlop) => Err(CastError::Slop),
        Err(_) => Err(CastError::Other),
    }
}

/// Why a shader library could not be parsed from some bytes.
#[derive(Clone, Copy, Debug, PartialEq, Eq, Structural)]
pub enum LibraryError {
    /// The bytes are not whole, aligned 32-bit words.
    Cast(CastError),
    /// There are more words than a `u32` can count.
    TooLong,
}

/// A PICA200 Shader Library (commonly called DVLB). This can be comprised of
/// one or more [`Entrypoint`]s, but most commonly has one vertex shader and an
/// optional geometry shader.
#[derive(Debug)]
pub struct Library {
    len: usize,
}

/// A shader library entrypoint (also called DVLE). This represents either a
/// vertex or a geometry shader.
#[derive(Clone, Copy, Debug)]
pub struct Entrypoint<'lib> {
    index: usize,
    _library: &'lib Library,
}

impl<'lib> Entrypoint<'lib> {
    /// The position of the entrypoint in its library.
    pub closed spec fn spec_index(self) -> usize {
        self.index
    }

    /// The library the entrypoint belongs to.
    pub closed spec fn spec_library(self) -> Library {
        *self._library
    }

    /// An entrypoint lies within its library.
    #[verifier::type_invariant]
    spec fn in_library(self) -> bool {
        self.index < self._library.len
    }

    /// The position of the entrypoint in its library.
    pub fn index(self) -> (r: usize)
        ensures
            r == self.spec_index(),
            r < self.spec_library().spec_len(),
    {
        proof {
            use_type_invariant(self);
        }
        self.index
    }

    /// The library the entrypoint belongs to.
    pub fn library(self) -> (r: &'lib Library)
        ensures
            *r == self.spec_library(),
    {
        self._library
    }
}

impl Library {
    /// The number of entrypoints.
    pub closed spec fn spec_len(self) -> usize {
        self.len
    }

    /// View shader binary bytes as the 32-bit words that the parser reads, with their
    /// count as the parser takes it.
    ///
    /// # Errors
    ///
    /// An error is returned if the input data does not have an alignment of 4
    /// (cannot be safely converted to `&[u32]`), or has too many words.
    pub fn words_from_bytes(bytes: &[u8]) -> (r: Result<(&[u32], u32), LibraryError>)
        ensures
            r matches Ok((w, n)) ==> w@.len() * 4 == bytes@.len() && n == w@.len(),
            bytes@.len() % 4 != 0 ==> r is Err,
            r matches Err(e) ==> e == LibraryError::Cast(CastError::Misaligned) || (e
                == LibraryError::Cast(CastError::Slop) && bytes@.len() % 4 != 0) || (e
                == LibraryError::TooLong && bytes@.len() / 4 > u32::MAX),
    {
        Self::words_from_cast(cast_to_words(bytes))
    }

    /// The words that the parser reads and their count, given the outcome of viewing
    /// the shader binary bytes as words: the whole word view and its length, unless
    /// the view failed or has more words than a `u32` counts.
    ///
    /// # Errors
    ///
    /// * [`LibraryError::Cast`] with the reason if the bytes could not be viewed as
    ///   words.
    /// * [`LibraryError::TooLong`] if there are more words than a `u32` counts.
    pub fn words_from_cast(cast: Result<&[u32], CastError>) -> (r: Result<(&[u32], u32), LibraryError>)
        ensures
            match cast {
                Ok(w) => if w@.len() <= u32::MAX {
                    r matches Ok((v, n)) && v@ == w@ && n == w@.len()
                } else {
                    r == Err::<(&[u32], u32), LibraryError>(LibraryError::TooLong)
                },
                Err(e) => r == Err::<(&[u32], u32), LibraryError>(LibraryError::Cast(e)),
            },
    {
        let aligned = match cast {
            Ok(w) => w,
            Err(e) => return Err(LibraryError::Cast(e)),
        };
        if aligned.len() > u32::MAX as usize {
            return Err(LibraryError::TooLong);
        }
        Ok((aligned, aligned.len() as u32))
    }

    /// A library with `len` entrypoints, as the parser found them.
    pub fn from_parsed(len: usize) -> (r: Library)
        ensures
            r.spec_len() == len,
    {
        Library { len }
    }

    /// The number of entrypoints.
    pub fn len(&self) -> (r: usize)
        ensures
            r == self.spec_len(),
    {
        self.len
    }

    /// The entrypoint at `index`, if there is one.
    pub fn get(&self, index: usize) -> (r: Option<Entrypoint<'_>>)
        ensures
            r is Some <==> index < self.spec_len(),
            r matches Some(e) ==> e.spec_index() == index && e.spec_library() == *self,
    {
        if index < self.len() {
            Some(Entrypoint { index, _library: self })
        } else {
            None
        }
    }

    /// Whether the library has no entrypoint.
    pub fn is_empty(&self) -> (r: bool)
        ensures
            r == (self.spec_len() == 0),
    {
        self.len() == 0
    }
}

/// A PICA200 shader program. It may have one or both of:
///
/// * A vertex shader entrypoint
/// * A geometry shader entrypoint, with the stride of its inputs
///
/// The PICA200 does not support user-programmable fragment shaders.
#[derive(Debug)]
pub struct Program {
    vertex_shader: usize,
    geometry_shader: Option<(usize, u8)>,
}

impl Program {
    /// The index of the vertex shader entrypoint in its library.
    pub closed spec fn spec_vertex_shader(self) -> usize {
        self.vertex_shader
    }

    /// The index of the geometry shader entrypoint in its library and its input
    /// stride, if one is set.
    pub closed spec fn spec_geometry_shader(self) -> Option<(usize, u8)> {
        self.geometry_shader
    }

    /// Create a new shader program from a vertex shader, given the codes that
    /// `shaderProgramInit` and then `shaderProgramSetVsh` returned (the second is
    /// not looked at when the first is an error).
    ///
    /// # Errors
    ///
    /// [`Error::System`] with the first nonzero code: the program could not be
    /// initialized, or the shader is not a vertex shader or is otherwise invalid.
    pub fn new(vertex_shader: Entrypoint<'_>, init_result: i32, set_vsh_result: i32) -> (r: Result<
        Program,
        Error,
    >)
        ensures
            init_result != 0 ==> r == Err::<Program, Error>(Error::System(init_result)),
            init_result == 0 && set_vsh_result != 0 ==> r == Err::<Program, Error>(
                Error::System(set_vsh_result),
            ),
            init_result == 0 && set_vsh_result == 0 ==> (r matches Ok(p)
                && p.spec_vertex_shader() == vertex_shader.spec_index()
                && p.spec_geometry_shader() is None),
    {
        if init_result != 0 {
            return Err(Error::System(init_result));
        }
        if set_vsh_result != 0 {
            return Err(Error::System(set_vsh_result));
        }
        Ok(Program { vertex_shader: vertex_shader.index(), geometry_shader: None })
    }

    /// Set the geometry shader of the program, given the code that
    /// `shaderProgramSetGsh` returned.
    ///
    /// # Errors
    ///
    /// [`Error::System`] with the code if it is nonzero: the shader is not a
    /// geometry shader or is otherwise invalid. The program is then unchanged.
    pub fn set_geometry_shader(
        &mut self,
        geometry_shader: Entrypoint<'_>,
        stride: u8,
        result: i32,
    ) -> (r: Result<(), Error>)
        ensures
            r is Ok <==> result == 0,
            r matches Err(e) ==> e == Error::System(result) && *final(self) == *old(self),
            r is Ok ==> final(self).spec_geometry_shader() == Some(
                (geometry_shader.spec_index(), stride),
            ) && final(self).spec_vertex_shader() == old(self).spec_vertex_shader(),
    {
        if result != 0 {
            return Err(Error::System(result));
        }
        self.geometry_shader = Some((geometry_shader.index(), stride));
        Ok(())
    }

    /// The index of the vertex shader entrypoint in its library.
    pub fn vertex_shader(&self) -> (r: usize)
        ensures
            r == self.spec_vertex_shader(),
    {
        self.vertex_shader
    }

    /// The geometry shader entrypoint and its input stride, if one is set.
    pub fn geometry_shader(&self) -> (r: Option<(usize, u8)>)
        ensures
            r == self.spec_geometry_shader(),
    {
        self.geometry_shader
    }
}

/// Helper struct to hold bytes aligned as a specific type.
#[derive(Debug)]
pub struct AlignedAs<Align, Bytes> {
    /// Zero elements of the alignment type, to align the struct.
    pub _align: [Align; 0],
    /// The bytes.
    pub bytes: Bytes,
}

} // verus!
