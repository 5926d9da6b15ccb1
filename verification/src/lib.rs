//! Build-time construction of null-terminated byte buffers.
//!
//! Given the text of a quoted string literal, the library checks that its
//! byte representation holds no embedded null byte. On success it appends a
//! single terminating null, yielding a buffer that is null-terminated by
//! construction and free of interior nulls, ready for zero-copy interop with
//! interfaces that expect null-terminated strings. On failure it reports the
//! byte offset of the first embedded null, so that the build can be aborted
//! with a precise diagnostic.

pub mod buffer;
pub mod diag;
pub mod scan;
pub mod tokens;
pub mod transform;
