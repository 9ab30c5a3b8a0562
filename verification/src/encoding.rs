//! What the standard library's UTF-8 decoder is taken to do.

use vstd::prelude::*;
use vstd::string::StringSliceAdditionalSpecFns;
use vstd::utf8::valid_utf8;

verus! {

/// The error of `core::str::from_utf8`. Nothing is read from it: the library
/// only learns from it that the bytes did not decode.
#[verifier::external_type_specification]
#[verifier::external_body]
pub struct ExUtf8Error(core::str::Utf8Error);

/// `core::str::from_utf8` is not verified here. It is taken to succeed on
/// exactly the byte sequences that are well-formed UTF-8, and then to give a
/// string slice whose bytes are the bytes it was handed.
pub assume_specification[ core::str::from_utf8 ](v: &[u8]) -> (decoded: Result<
    &str,
    core::str::Utf8Error,
>)
    ensures
        decoded is Ok <==> valid_utf8(v@),
        decoded matches Ok(text) ==> text.spec_bytes() == v@,
;

} // verus!
