//! The trusted boundary to the token machinery: declarations of the token
//! types, names for what the outside calls return, and thin wrappers around
//! the calls the transformer makes. Each wrapper's doc comment names the
//! outside function relied on; each result is a deterministic function of
//! the wrapper's arguments alone, so it is given a name that the callers'
//! contracts can speak of.

use vstd::prelude::*;

verus! {

#[verifier::external_type_specification]
#[verifier::external_body]
pub struct ExTokenStream(proc_macro2::TokenStream);

#[verifier::external_type_specification]
#[verifier::external_body]
pub struct ExSpan(proc_macro2::Span);

#[verifier::external_type_specification]
#[verifier::external_body]
pub struct ExLitStr(syn::LitStr);

#[verifier::external_type_specification]
#[verifier::external_body]
pub struct ExLitByteStr(syn::LitByteStr);

#[verifier::external_type_specification]
#[verifier::external_body]
pub struct ExSynError(syn::Error);

/// The characters of the source text that `tokens` render as.
pub uninterp spec fn tokens_chars(tokens: proc_macro2::TokenStream) -> Seq<char>;

/// Whether `tokens` parse as exactly one string literal.
pub uninterp spec fn lit_parse_ok(tokens: proc_macro2::TokenStream) -> bool;

/// The string literal that `tokens` parse as, when they parse as one.
pub uninterp spec fn parsed_lit_of(tokens: proc_macro2::TokenStream) -> syn::LitStr;

/// The decoded contents of the string literal `lit`, escapes resolved.
pub uninterp spec fn lit_value_chars(lit: syn::LitStr) -> Seq<char>;

/// The source position stored in the string literal `lit`.
pub uninterp spec fn lit_span_of(lit: syn::LitStr) -> proc_macro2::Span;

/// The byte-string literal token holding `bytes`, positioned at `span`.
pub uninterp spec fn byte_lit_of(bytes: Seq<u8>, span: proc_macro2::Span) -> syn::LitByteStr;

/// Relies on proc_macro2::TokenStream's Display impl, through
/// ToString::to_string: renders the tokens as the source text they were
/// written as, a deterministic function of the tokens alone.
#[verifier::external_body]
pub(crate) fn tokens_text(tokens: &proc_macro2::TokenStream) -> (r: String)
    ensures
        r@ == tokens_chars(*tokens),
{
    tokens.to_string()
}

/// Relies on syn::parse2::<syn::LitStr>: parses the tokens as exactly one
/// string literal — any other shape, a trailing token included, returns the
/// parse error instead. Which way it goes, and which literal comes back,
/// depend on the tokens alone.
#[verifier::external_body]
pub(crate) fn parse_string_literal(tokens: proc_macro2::TokenStream) -> (r: Result<
    syn::LitStr,
    syn::Error,
>)
    ensures
        r is Ok <==> lit_parse_ok(tokens),
        r matches Ok(l) ==> l == parsed_lit_of(tokens),
{
    syn::parse2::<syn::LitStr>(tokens)
}

/// Relies on syn::LitStr::value: the decoded contents of the string
/// literal, escape sequences resolved, a deterministic function of the
/// literal alone.
#[verifier::external_body]
pub(crate) fn literal_value(lit: &syn::LitStr) -> (r: String)
    ensures
        r@ == lit_value_chars(*lit),
{
    lit.value()
}

/// Relies on syn::LitStr::span: the literal's position in the caller's
/// source, read from the literal itself.
#[verifier::external_body]
pub(crate) fn literal_span(lit: &syn::LitStr) -> (r: proc_macro2::Span)
    ensures
        r == lit_span_of(*lit),
{
    lit.span()
}

/// Relies on syn::LitByteStr::new: a byte-string literal token holding the
/// given bytes, positioned at `span`, a deterministic function of the two.
#[verifier::external_body]
pub(crate) fn byte_string_literal(bytes: &[u8], span: proc_macro2::Span) -> (r: syn::LitByteStr)
    ensures
        r == byte_lit_of(bytes@, span),
{
    syn::LitByteStr::new(bytes, span)
}

} // verus!
