//! The one text that the check accepts, and the comparison against it.

use vstd::prelude::*;
use vstd::string::StringSliceAdditionalSpecFns;
use vstd::utf8::{encode_utf8, encode_utf8_decode_utf8, is_ascii_chars, is_ascii_chars_encode_utf8};

verus! {

/// The accepted text, as characters.
pub open spec fn greeting() -> Seq<char> {
    "Hello Rust"@
}

/// The accepted text, as the bytes of its UTF-8 encoding.
pub open spec fn greeting_bytes() -> Seq<u8> {
    encode_utf8(greeting())
}

/// The greeting is ten ASCII characters, and its encoding is these ten bytes.
pub proof fn lemma_greeting_bytes()
    ensures
        greeting() == seq!['H', 'e', 'l', 'l', 'o', ' ', 'R', 'u', 's', 't'],
        greeting_bytes() == seq![0x48u8, 0x65u8, 0x6cu8, 0x6cu8, 0x6fu8, 0x20u8, 0x52u8, 0x75u8, 0x73u8, 0x74u8],
{
    reveal_strlit("Hello Rust");
    let chars = greeting();
    assert(chars =~= seq!['H', 'e', 'l', 'l', 'o', ' ', 'R', 'u', 's', 't']);
    assert(is_ascii_chars(chars));
    is_ascii_chars_encode_utf8(chars);
    let bytes = greeting_bytes();
    assert(bytes.len() == 10);
    assert(bytes[0] == chars[0] as u8);
    assert(bytes[1] == chars[1] as u8);
    assert(bytes[2] == chars[2] as u8);
    assert(bytes[3] == chars[3] as u8);
    assert(bytes[4] == chars[4] as u8);
    assert(bytes[5] == chars[5] as u8);
    assert(bytes[6] == chars[6] as u8);
    assert(bytes[7] == chars[7] as u8);
    assert(bytes[8] == chars[8] as u8);
    assert(bytes[9] == chars[9] as u8);
    assert(bytes =~= seq![0x48u8, 0x65u8, 0x6cu8, 0x6cu8, 0x6fu8, 0x20u8, 0x52u8, 0x75u8, 0x73u8, 0x74u8]);
}

/// Two character sequences are equal exactly when their encodings are.
pub proof fn lemma_encoding_is_injective(left: Seq<char>, right: Seq<char>)
    ensures
        (encode_utf8(left) == encode_utf8(right)) <==> (left == right),
{
    encode_utf8_decode_utf8(left);
    encode_utf8_decode_utf8(right);
}

/// Compares two slices byte for byte.
fn same_bytes(left: &[u8], right: &[u8]) -> (same: bool)
    ensures
        same == (left@ == right@),
{
    if left.len() != right.len() {
        return false;
    }
    let mut i: usize = 0;
    while i < left.len()
        invariant
            left.len() == right.len(),
            i <= left.len(),
            forall|j: int| 0 <= j < i ==> left@[j] == right@[j],
        decreases left.len() - i,
    {
        if left[i] != right[i] {
            return false;
        }
        i += 1;
    }
    assert(left@ =~= right@);
    true
}

/// Says whether `text` is the greeting: the same length and the same bytes,
/// so that case and surrounding blanks count.
pub fn matches_greeting(text: &str) -> (matched: bool)
    ensures
        matched == (text@ == greeting()),
        matched == (text.spec_bytes() == greeting_bytes()),
{
    proof {
        lemma_encoding_is_injective(text@, greeting());
    }
    same_bytes(text.as_bytes(), "Hello Rust".as_bytes())
}

} // verus!
