use citro3d::shader::{AlignedAs, CastError, Library, LibraryError, Program};
use citro3d::Error;
use citro3d::shader_include::{
    compile_outcome, include_shader_source, source_path, IncludeShaderError,
};

// Embedding a shader compiles it with `picasso`, which runs outside the library
// (the system side does the file and process work), so these tests do not compile
// `test.pica`. They check what the library decides for the macro input
// `"test.pica"` and for a successful `picasso` run, and then check a hand-written
// shader binary image embedded the same way: a sequence of 32-bit words ("DVLB"
// header, entry count, ...) aligned as `u32`.
const COMPILED: &AlignedAs<u32, [u8; 12]> = &AlignedAs {
    _align: [],
    bytes: [0x44, 0x56, 0x4C, 0x42, 1, 0, 0, 0, 0x0C, 0, 0, 0],
};

static STATIC_COMPILED: AlignedAs<u32, [u8; 12]> = AlignedAs {
    _align: [],
    bytes: [0x44, 0x56, 0x4C, 0x42, 1, 0, 0, 0, 0x0C, 0, 0, 0],
};

#[test]
fn includes_shader_static() {
    let source = include_shader_source(&["\"test.pica\""]).unwrap();
    assert_eq!(source, "test.pica");
    assert_eq!(compile_outcome(Some(0)), Ok(()));

    static SHADER_BYTES: &[u8] = &STATIC_COMPILED.bytes;

    assert_eq!(SHADER_BYTES.len() % 4, 0);
    let (words, count) = Library::words_from_bytes(SHADER_BYTES).unwrap();
    assert_eq!(words.len() * 4, SHADER_BYTES.len());
    assert_eq!(count, 3);
}

#[test]
fn includes_shader_const() {
    let source = include_shader_source(&["\"test.pica\""]).unwrap();
    assert_eq!(source, "test.pica");
    assert_eq!(compile_outcome(Some(0)), Ok(()));

    const SHADER_BYTES: &[u8] = &COMPILED.bytes;

    assert_eq!(SHADER_BYTES.len() % 4, 0);
    assert!(Library::words_from_bytes(SHADER_BYTES).is_ok());
}

#[test]
fn include_shader_rejects_token_counts() {
    assert_eq!(include_shader_source(&[]), Err(IncludeShaderError::TokenCount(0)));
    assert_eq!(
        include_shader_source(&["\"a.pica\"", ","]),
        Err(IncludeShaderError::TokenCount(2))
    );
}

#[test]
fn include_shader_rejects_non_literals() {
    assert_eq!(include_shader_source(&["foo"]), Err(IncludeShaderError::NotAStringLiteral));
    assert_eq!(include_shader_source(&["42"]), Err(IncludeShaderError::NotAStringLiteral));
}

#[test]
fn include_shader_unescapes_literal() {
    assert_eq!(include_shader_source(&["\"dir\\\\x.pica\""]).unwrap(), "dir\\x.pica");
    assert_eq!(include_shader_source(&["r\"../tests/a.pica\""]).unwrap(), "../tests/a.pica");
}

#[test]
fn compile_outcome_codes() {
    assert_eq!(compile_outcome(Some(0)), Ok(()));
    assert_eq!(compile_outcome(Some(1)), Err(IncludeShaderError::CompileFailed(Some(1))));
    assert_eq!(compile_outcome(None), Err(IncludeShaderError::CompileFailed(None)));
}

#[test]
fn library_words_reject_slop() {
    static BYTES: AlignedAs<u32, [u8; 6]> = AlignedAs { _align: [], bytes: [1, 2, 3, 4, 5, 6] };
    assert!(Library::words_from_bytes(&BYTES.bytes).is_err());
    assert!(Library::words_from_bytes(&BYTES.bytes[1..5]).is_err());
}

#[test]
fn library_entrypoints() {
    let lib = Library::from_parsed(2);
    assert_eq!(lib.len(), 2);
    assert!(!lib.is_empty());
    assert_eq!(lib.get(1).map(|e| e.index()), Some(1));
    assert!(lib.get(2).is_none());
    assert!(Library::from_parsed(0).is_empty());
}

#[test]
fn program_from_shader_results() {
    let lib = Library::from_parsed(2);
    let vsh = lib.get(0).unwrap();
    let gsh = lib.get(1).unwrap();
    assert!(matches!(Program::new(vsh, -5, 0), Err(Error::System(-5))));
    assert!(matches!(Program::new(vsh, -5, -6), Err(Error::System(-5))));
    assert!(matches!(Program::new(vsh, 0, -6), Err(Error::System(-6))));
    let mut program = Program::new(vsh, 0, 0).unwrap();
    assert_eq!(program.vertex_shader(), 0);
    assert_eq!(program.geometry_shader(), None);
    assert!(matches!(program.set_geometry_shader(gsh, 3, -1), Err(Error::System(-1))));
    assert_eq!(program.geometry_shader(), None);
    program.set_geometry_shader(gsh, 3, 0).unwrap();
    assert_eq!(program.geometry_shader(), Some((1, 3)));
    assert_eq!(program.vertex_shader(), 0);
}

#[test]
fn source_path_from_literal_value() {
    assert_eq!(source_path(Some("a/b.pica".to_string())), Ok("a/b.pica".to_string()));
    assert_eq!(source_path(None), Err(IncludeShaderError::NotAStringLiteral));
}

#[test]
fn entrypoints_know_their_library() {
    let lib = Library::from_parsed(2);
    let other = Library::from_parsed(2);
    let e = lib.get(1).unwrap();
    assert!(std::ptr::eq(e.library(), &lib));
    assert!(!std::ptr::eq(e.library(), &other));
}

#[test]
fn words_from_cast_outcomes() {
    static WORDS: [u32; 3] = [1, 2, 3];
    let (w, n) = Library::words_from_cast(Ok(&WORDS)).unwrap();
    assert_eq!(w, &WORDS);
    assert_eq!(n, 3);
    assert_eq!(
        Library::words_from_cast(Err(CastError::Misaligned)),
        Err(LibraryError::Cast(CastError::Misaligned))
    );
    assert_eq!(
        Library::words_from_cast(Err(CastError::Slop)),
        Err(LibraryError::Cast(CastError::Slop))
    );
}

#[test]
fn words_from_aligned_bytes() {
    let (words, count) = Library::words_from_bytes(&STATIC_COMPILED.bytes).unwrap();
    assert_eq!(count, 3);
    assert_eq!(words.len(), 3);
}
