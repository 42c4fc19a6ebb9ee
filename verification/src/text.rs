//! Bytes as text: the check that a run of bytes is valid UTF-8.
use vstd::prelude::*;
use vstd::string::StringSliceAdditionalSpecFns;
use vstd::utf8::{decode_utf8, encode_utf8_decode_utf8, valid_utf8};
use crate::error::Error;

verus! {

/// `core::str::Utf8Error`, what `core::str::from_utf8` fails with. It is only
/// passed on; nothing is claimed of what it holds.
#[verifier::external_type_specification]
#[verifier::external_body]
pub struct ExUtf8Error(core::str::Utf8Error);

/// `core::str::from_utf8` succeeds exactly on the byte sequences that are valid
/// UTF-8, and the string slice it then returns has the given bytes as its
/// encoding. Nothing is said of the error value.
pub assume_specification[ core::str::from_utf8 ](v: &[u8]) -> (r: Result<
    &str,
    core::str::Utf8Error,
>)
    ensures
        r is Ok <==> valid_utf8(v@),
        r matches Ok(s) ==> s.spec_bytes() == v@,
;

/// Reads `bytes` as text: the characters they encode, or the failure for bytes
/// that are not valid UTF-8.
pub fn as_text(bytes: &[u8]) -> (r: Result<&str, Error>)
    ensures
        valid_utf8(bytes@) ==> r is Ok && r.unwrap()@ == decode_utf8(bytes@),
        !valid_utf8(bytes@) ==> r == Err::<&str, Error>(Error::invalid_text()),
{
    match core::str::from_utf8(bytes) {
        Ok(s) => {
            proof {
                encode_utf8_decode_utf8(s@);
            }
            Ok(s)
        },
        Err(_) => Err(Error::invalid_text()),
    }
}

} // verus!
