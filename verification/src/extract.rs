//! Extraction of text from the engine's nul-terminated, possibly absent
//! buffers.
//!
//! A text field of the engine's request snapshot is handed to this crate as
//! `Option<Vec<u8>>`: `None` where the engine left the field's pointer null,
//! and otherwise the pointed-to bytes.  Extraction reads the bytes up to but
//! excluding the first nul, treating a null pointer and an immediate
//! terminator alike as "absent".  Bytes that are not well-formed UTF-8 also
//! extract to "absent": a deliberate, documented choice for malformed
//! upstream data rather than truncation or a panic.

use vstd::prelude::*;
use vstd::slice::{slice_subrange, slice_to_vec};
use vstd::utf8::{decode_utf8, valid_utf8};

verus! {

/// Index of the first nul byte, or the length when there is none.
pub open spec fn nul_index(bytes: Seq<u8>) -> int
    decreases bytes.len(),
{
    if bytes.len() == 0 {
        0
    } else if bytes[0] == 0 {
        0
    } else {
        1 + nul_index(bytes.drop_first())
    }
}

/// The text bytes of a nul-terminated buffer: everything before the first
/// nul.
pub open spec fn c_prefix(bytes: Seq<u8>) -> Seq<u8> {
    bytes.take(nul_index(bytes))
}

/// The first nul's index bounds the buffer, everything before it is nonzero,
/// and the byte there (when in range) is the nul itself.
pub proof fn lemma_nul_index(bytes: Seq<u8>)
    ensures
        0 <= nul_index(bytes) <= bytes.len(),
        forall|i: int| 0 <= i < nul_index(bytes) ==> bytes[i] != 0,
        nul_index(bytes) < bytes.len() ==> bytes[nul_index(bytes)] == 0,
    decreases bytes.len(),
{
    if bytes.len() > 0 && bytes[0] != 0 {
        lemma_nul_index(bytes.drop_first());
        assert forall|i: int| 0 <= i < nul_index(bytes) implies bytes[i] != 0 by {
            if i > 0 {
                assert(bytes.drop_first()[i - 1] == bytes[i]);
            }
        }
        if nul_index(bytes) < bytes.len() {
            assert(bytes.drop_first()[nul_index(bytes) - 1] == bytes[nul_index(bytes)]);
        }
    }
}

proof fn lemma_nul_index_is(bytes: Seq<u8>, k: int)
    requires
        0 <= k <= bytes.len(),
        forall|j: int| 0 <= j < k ==> bytes[j] != 0,
        k < bytes.len() ==> bytes[k] == 0,
    ensures
        nul_index(bytes) == k,
{
    lemma_nul_index(bytes);
}

fn scan_nul(buf: &[u8]) -> (r: usize)
    ensures
        r as int == nul_index(buf@),
{
    let mut i: usize = 0;
    while i < buf.len()
        invariant
            0 <= i <= buf@.len(),
            forall|j: int| 0 <= j < i ==> buf@[j] != 0,
        decreases buf@.len() - i,
    {
        if buf[i] == 0 {
            proof {
                lemma_nul_index_is(buf@, i as int);
            }
            return i;
        }
        i = i + 1;
    }
    proof {
        lemma_nul_index_is(buf@, i as int);
    }
    i
}

/// What a possibly absent, nul-terminated engine text field extracts to:
/// absent when the pointer was null, when the terminator is immediate, or
/// when the bytes before the terminator are not well-formed UTF-8; otherwise
/// the decoded text.
pub open spec fn spec_extract(field: Option<Vec<u8>>) -> Option<Seq<char>> {
    match field {
        None => None,
        Some(b) => {
            let p = c_prefix(b@);
            if p.len() == 0 {
                None
            } else if valid_utf8(p) {
                Some(decode_utf8(p))
            } else {
                None
            }
        },
    }
}

/// Relies on `String::from_utf8`: construction succeeds exactly on
/// well-formed UTF-8 input, and the resulting text decodes those bytes.
#[verifier::external_body]
fn utf8_to_string(bytes: Vec<u8>) -> (r: Option<String>)
    ensures
        r is Some <==> valid_utf8(bytes@),
        r matches Some(s) ==> s@ == decode_utf8(bytes@),
{
    String::from_utf8(bytes).ok()
}

/// Extracts the text of a possibly absent, nul-terminated engine buffer.
pub fn extract_text(field: &Option<Vec<u8>>) -> (r: Option<String>)
    ensures
        r.deep_view() == spec_extract(*field),
{
    match field {
        None => None,
        Some(buf) => {
            let end = scan_nul(buf.as_slice());
            if end == 0 {
                return None;
            }
            proof {
                lemma_nul_index(buf@);
            }
            let prefix = slice_to_vec(slice_subrange(buf.as_slice(), 0, end));
            proof {
                assert(prefix@ =~= c_prefix(buf@));
            }
            utf8_to_string(prefix)
        },
    }
}

} // verus!
