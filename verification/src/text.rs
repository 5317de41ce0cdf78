//! Text as bytes: decoding a payload, and comparing two texts.

use vstd::prelude::*;
use vstd::string::StringSliceAdditionalSpecFns;
use vstd::utf8::{decode_utf8, encode_utf8, encode_utf8_decode_utf8, valid_utf8};
use crate::error::{Failure, StageError};

verus! {

/// `core::str::Utf8Error`, the error of bytes that are not UTF-8. It is
/// carried to where it is turned into a failure of the library.
#[verifier::external_type_specification]
#[verifier::external_body]
pub struct ExUtf8Error(core::str::Utf8Error);

/// `std::str::from_utf8` succeeds exactly on the byte sequences that are
/// valid UTF-8, and the string slice it returns is made of those bytes.
pub assume_specification[ core::str::from_utf8 ](bytes: &[u8]) -> (res: Result<
    &str,
    core::str::Utf8Error,
>)
    ensures
        res is Ok <==> valid_utf8(bytes@),
        res matches Ok(text) ==> text.spec_bytes() == bytes@,
;

/// Reads a payload as UTF-8 text.
pub fn decode(payload: &[u8]) -> (res: Result<&str, StageError>)
    ensures
        match res {
            Ok(text) => valid_utf8(payload@) && text@ == decode_utf8(payload@),
            Err(e) => !valid_utf8(payload@) && e@ == Failure::NonTextPayload,
        },
{
    match core::str::from_utf8(payload) {
        Ok(text) => {
            proof {
                encode_utf8_decode_utf8(text@);
            }
            Ok(text)
        },
        Err(_) => Err(StageError::NonTextPayload),
    }
}

/// Whether two texts are the same, decided on their bytes.
pub fn same_text(a: &str, b: &str) -> (same: bool)
    ensures
        same == (a@ == b@),
{
    let left = a.as_bytes();
    let right = b.as_bytes();
    proof {
        encode_utf8_decode_utf8(a@);
        encode_utf8_decode_utf8(b@);
    }
    if left.len() != right.len() {
        return false;
    }
    let mut i: usize = 0;
    while i < left.len()
        invariant
            i <= left.len(),
            left.len() == right.len(),
            left@ == encode_utf8(a@),
            right@ == encode_utf8(b@),
            forall|j: int| 0 <= j < i ==> left@[j] == right@[j],
            decode_utf8(encode_utf8(a@)) == a@,
            decode_utf8(encode_utf8(b@)) == b@,
        decreases left.len() - i,
    {
        if left[i] != right[i] {
            return false;
        }
        i += 1;
    }
    proof {
        assert(left@ =~= right@);
    }
    true
}

} // verus!
