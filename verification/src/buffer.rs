//! The terminated buffer: a byte sequence whose single null byte is its last.

use vstd::prelude::*;

use crate::scan::{find_first_null, first_null_at, null_free};

verus! {

/// A byte sequence is well-formed as a terminated buffer when it is
/// non-empty, its last byte is null, and no byte before the last is null.
pub open spec fn well_formed(s: Seq<u8>) -> bool {
    &&& s.len() >= 1
    &&& s[s.len() - 1] == 0
    &&& null_free(s.take(s.len() - 1))
}

/// A byte buffer that is null-terminated by construction: it ends in a null
/// byte and holds no null byte anywhere else. A consumer may hand it to an
/// interface expecting a null-terminated string without re-validating it.
pub struct TerminatedBuffer {
    bytes: Vec<u8>,
}

impl View for TerminatedBuffer {
    type V = Seq<u8>;

    closed spec fn view(&self) -> Seq<u8> {
        self.bytes@
    }
}

impl TerminatedBuffer {
    #[verifier::type_invariant]
    closed spec fn inv(self) -> bool {
        well_formed(self.bytes@)
    }

    /// The checked construction path: re-validates arbitrary bytes, and
    /// accepts them exactly when they are already well-formed.
    pub fn from_bytes_with_nul(bytes: Vec<u8>) -> (r: Option<TerminatedBuffer>)
        ensures
            (match r {
                Some(b) => well_formed(bytes@) && b@ == bytes@,
                None => !well_formed(bytes@),
            }),
    {
        match find_first_null(bytes.as_slice()) {
            Some(p) => {
                let n = bytes.len();
                assert(p < n);
                if p == n - 1 {
                    Some(TerminatedBuffer { bytes })
                } else {
                    proof {
                        assert(bytes@.take(bytes@.len() - 1)[p as int] == 0);
                    }
                    None
                }
            },
            None => None,
        }
    }

    /// The unchecked construction path: the caller must have established
    /// well-formedness already, and no scan is repeated here.
    pub fn from_bytes_with_nul_unchecked(bytes: Vec<u8>) -> (r: TerminatedBuffer)
        requires
            well_formed(bytes@),
        ensures
            r@ == bytes@,
    {
        TerminatedBuffer { bytes }
    }

    /// The core transformation: scans `text` for a null byte. If the first
    /// null stands at offset `p`, the result is `Err(p)`; otherwise a single
    /// terminating null is appended and the terminated buffer is returned.
    pub fn terminate(text: Vec<u8>) -> (r: Result<TerminatedBuffer, usize>)
        ensures
            (match r {
                Ok(b) => null_free(text@) && b@ == text@.push(0u8),
                Err(p) => first_null_at(text@, p as int),
            }),
    {
        match find_first_null(text.as_slice()) {
            Some(p) => Err(p),
            None => {
                let mut buf = text;
                buf.push(0u8);
                proof {
                    assert(buf@.take(buf@.len() - 1) =~= text@);
                }
                Ok(TerminatedBuffer { bytes: buf })
            },
        }
    }

    /// The buffer's bytes, terminating null included. Every value of this
    /// type is well-formed, in every state: exactly one null byte, standing
    /// at the end.
    pub fn as_bytes(&self) -> (r: &[u8])
        ensures
            r@ == self@,
            well_formed(self@),
    {
        proof {
            use_type_invariant(self);
        }
        self.bytes.as_slice()
    }

    /// The buffer's length in bytes, terminating null included; always at
    /// least one.
    pub fn len(&self) -> (n: usize)
        ensures
            n == self@.len(),
            n >= 1,
    {
        proof {
            use_type_invariant(self);
        }
        self.bytes.len()
    }
}

/// For null-free text, terminating it yields a well-formed buffer whose
/// length is the text's length plus one, whose last byte is null, and whose
/// bytes short of the trailing null are exactly the original text.
pub proof fn lemma_terminated_shape(text: Seq<u8>)
    requires
        null_free(text),
    ensures
        well_formed(text.push(0u8)),
        text.push(0u8).len() == text.len() + 1,
        text.push(0u8)[text.len() as int] == 0,
        text.push(0u8).take(text.len() as int) == text,
{
    assert(text.push(0u8).take(text.len() as int) =~= text);
}

} // verus!
