//! The literal transformer: takes one quoted string literal, scans its byte
//! representation for an embedded null, and either emits a terminated
//! buffer together with the byte-string literal to embed, or reports why
//! the build must fail.

use vstd::prelude::*;
use vstd::string::StrSliceExecFns;

use crate::buffer::{well_formed, TerminatedBuffer};
use crate::diag::{diagnostic_text, null_diagnostic};
use crate::scan::{first_null_at, null_free};
use crate::tokens::{
    byte_lit_of, byte_string_literal, lit_parse_ok, lit_span_of, lit_value_chars, literal_span,
    literal_value, parse_string_literal, parsed_lit_of, tokens_chars, tokens_text,
};
use vstd::utf8::encode_utf8;

verus! {

/// The two ways a transformation fails; either one is fatal to the build.
#[derive(Debug)]
pub enum TransformError {
    /// The invocation input was not a single string literal; the parse
    /// error is carried for the caller to surface.
    MalformedInput { error: syn::Error },
    /// The literal's byte representation holds a null byte before its end;
    /// `position` is the offset of the first one, and `message` the exact
    /// diagnostic to fail the build with.
    EmbeddedNull { position: usize, message: String },
}

/// A successful transformation: the terminated buffer itself, and the
/// byte-string literal token that embeds its bytes as static data at the
/// invocation's source position.
pub struct Emission {
    pub buffer: TerminatedBuffer,
    pub literal: syn::LitByteStr,
}

/// Transforms a literal already reduced to plain values: `literal_text` is
/// the literal as written in source (used only in the diagnostic), and
/// `value_bytes` its decoded byte representation. Succeeds with the
/// terminated buffer exactly when `value_bytes` is null-free; otherwise
/// fails with the offset of the first null and the full diagnostic.
pub fn transform_value(literal_text: &str, value_bytes: Vec<u8>) -> (r: Result<
    TerminatedBuffer,
    TransformError,
>)
    ensures
        (match r {
            Ok(b) => null_free(value_bytes@) && b@ == value_bytes@.push(0u8),
            Err(TransformError::EmbeddedNull { position, message }) => first_null_at(
                value_bytes@,
                position as int,
            ) && message@ == diagnostic_text(literal_text@, position as nat),
            Err(TransformError::MalformedInput { .. }) => false,
        }),
{
    match TerminatedBuffer::terminate(value_bytes) {
        Ok(b) => Ok(b),
        Err(p) => Err(
            TransformError::EmbeddedNull {
                position: p,
                message: null_diagnostic(literal_text, p),
            },
        ),
    }
}

/// One whole build-time invocation: parses the input tokens as a single
/// string literal, scans its decoded bytes, and on success emits the
/// terminated buffer and the byte-string literal carrying it. The contract
/// pins each arm over the names of the outside results: success comes
/// exactly when the tokens are one string literal whose decoded bytes are
/// null-free, the emitted buffer is those bytes plus the terminator and is
/// carried verbatim by the emitted byte-string literal at the input
/// literal's position, an embedded-null failure names the first null's
/// offset in those bytes with the exact diagnostic over the input's source
/// text, and a malformed-input failure comes exactly when the tokens are
/// not one string literal.
pub fn transform(input: proc_macro2::TokenStream) -> (r: Result<Emission, TransformError>)
    ensures
        (match r {
            Ok(em) => {
                &&& lit_parse_ok(input)
                &&& well_formed(em.buffer@)
                &&& em.buffer@ == encode_utf8(lit_value_chars(parsed_lit_of(input))).push(0u8)
                &&& em.literal == byte_lit_of(em.buffer@, lit_span_of(parsed_lit_of(input)))
            },
            Err(TransformError::EmbeddedNull { position, message }) => {
                &&& lit_parse_ok(input)
                &&& first_null_at(
                    encode_utf8(lit_value_chars(parsed_lit_of(input))),
                    position as int,
                )
                &&& message@ == diagnostic_text(tokens_chars(input), position as nat)
            },
            Err(TransformError::MalformedInput { .. }) => !lit_parse_ok(input),
        }),
{
    let literal_text = tokens_text(&input);
    let lit = match parse_string_literal(input) {
        Ok(l) => l,
        Err(e) => {
            return Err(TransformError::MalformedInput { error: e });
        },
    };
    let value = literal_value(&lit);
    let value_bytes = value.as_str().as_bytes_vec();
    match transform_value(literal_text.as_str(), value_bytes) {
        Ok(buffer) => {
            let span = literal_span(&lit);
            let literal = byte_string_literal(buffer.as_bytes(), span);
            Ok(Emission { buffer, literal })
        },
        Err(e) => Err(e),
    }
}

} // verus!
