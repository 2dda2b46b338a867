//! The checks behind embedding a compiled PICA200 shader in a program: the single
//! string literal naming the shader source, and the outcome of compiling it with
//! `picasso`.

use vstd::prelude::*;

verus! {

/// The value of the Rust string literal whose source text is `token`, if `token` is
/// a string literal.
pub uninterp spec fn string_literal_value(token: Seq<char>) -> Option<Seq<char>>;

/// Parse `token` as a Rust string literal and return its value
/// (`litrs::StringLit::parse`, then `value`). Its contract only ties the result to
/// [`string_literal_value`] of the token text; which texts are string literals and
/// what their escapes decode to is left to `litrs`.
#[verifier::external_body]
fn parse_string_literal(token: &str) -> (r: Option<String>)
    ensures
        match r {
            Some(s) => string_literal_value(token@) == Some(s@),
            None => string_literal_value(token@) is None,
        },
{
    litrs::StringLit::parse(token).ok().map(|lit| lit.value().to_string())
}

/// Why a shader could not be embedded.
#[derive(Clone, Debug, PartialEq, Eq)]
pub enum IncludeShaderError {
    /// The macro input was not exactly one token; the number of tokens it had.
    TokenCount(usize),
    /// The single input token was not a string literal.
    NotAStringLiteral,
    /// `picasso` did not exit successfully; its exit status code, if it had one.
    CompileFailed(Option<i32>),
}

/// The shader source path named by the macro input `tokens` (the source text of
/// each token): the value of its single string-literal token.
///
/// # Errors
///
/// * [`IncludeShaderError::TokenCount`] unless there is exactly one token.
/// * [`IncludeShaderError::NotAStringLiteral`] if that token is no string literal.
pub fn include_shader_source(tokens: &[&str]) -> (r: Result<String, IncludeShaderError>)
    ensures
        tokens@.len() != 1 ==> r == Err::<String, IncludeShaderError>(
            IncludeShaderError::TokenCount(tokens@.len() as usize),
        ),
        tokens@.len() == 1 ==> match string_literal_value(tokens@[0]@) {
            Some(v) => r matches Ok(s) && s@ == v,
            None => r == Err::<String, IncludeShaderError>(IncludeShaderError::NotAStringLiteral),
        },
{
    if tokens.len() != 1 {
        return Err(IncludeShaderError::TokenCount(tokens.len()));
    }
    source_path(parse_string_literal(tokens[0]))
}

/// The shader source path, given the value of the macro's single token as a string
/// literal (none if it is no string literal).
///
/// # Errors
///
/// [`IncludeShaderError::NotAStringLiteral`] if there is no value.
pub fn source_path(literal_value: Option<String>) -> (r: Result<String, IncludeShaderError>)
    ensures
        match literal_value {
            Some(v) => r matches Ok(s) && s@ == v@,
            None => r == Err::<String, IncludeShaderError>(IncludeShaderError::NotAStringLiteral),
        },
{
    match literal_value {
        Some(value) => Ok(value),
        None => Err(IncludeShaderError::NotAStringLiteral),
    }
}

/// The outcome of running `picasso`, given its exit status code (none when it was
/// ended by a signal): success exactly for status 0.
pub fn compile_outcome(code: Option<i32>) -> (r: Result<(), IncludeShaderError>)
    ensures
        r is Ok <==> code == Some(0i32),
        r matches Err(e) ==> e == IncludeShaderError::CompileFailed(code),
{
    match code {
        Some(0) => Ok(()),
        _ => Err(IncludeShaderError::CompileFailed(code)),
    }
}

} // verus!
