//! The check itself: from a buffer handed over by a foreign caller to the
//! answer whether its text is the greeting.

use vstd::prelude::*;
use vstd::slice::slice_subrange;
use vstd::string::StringSliceAdditionalSpecFns;
use vstd::utf8::{decode_utf8, encode_utf8_decode_utf8, encode_utf8_valid_utf8, valid_utf8};
use crate::greeting::{greeting, greeting_bytes, lemma_greeting_bytes, matches_greeting};
use crate::terminated::{
    is_terminated, lemma_first_terminator_unique, terminator_index, text_of, TERMINATOR,
};

verus! {

/// Why a buffer holds no text to compare.
#[derive(Clone, Copy, Debug, PartialEq, Eq, Structural)]
pub enum BoundaryFault {
    /// No byte of the buffer is the terminator.
    Unterminated,
    /// The bytes before the terminator are not well-formed UTF-8.
    InvalidEncoding,
}

/// What the check makes of a buffer: a fault where it holds no text, else
/// whether its text is the greeting.
pub open spec fn outcome(buf: Seq<u8>) -> Result<bool, BoundaryFault> {
    if !is_terminated(buf) {
        Err(BoundaryFault::Unterminated)
    } else if !valid_utf8(text_of(buf)) {
        Err(BoundaryFault::InvalidEncoding)
    } else {
        Ok(text_of(buf) == greeting_bytes())
    }
}

/// Borrows the text of `buf`: the bytes before its first terminator, decoded
/// as UTF-8. Nothing is copied, and bytes behind the terminator are not looked
/// at.
pub fn decode_text(buf: &[u8]) -> (decoded: Result<&str, BoundaryFault>)
    ensures
        match decoded {
            Ok(text) => {
                &&& is_terminated(buf@)
                &&& valid_utf8(text_of(buf@))
                &&& text.spec_bytes() == text_of(buf@)
                &&& text@ == decode_utf8(text_of(buf@))
            },
            Err(BoundaryFault::Unterminated) => !is_terminated(buf@),
            Err(BoundaryFault::InvalidEncoding) => is_terminated(buf@) && !valid_utf8(
                text_of(buf@),
            ),
        },
{
    match terminator_index(buf) {
        None => Err(BoundaryFault::Unterminated),
        Some(end) => {
            let bytes = slice_subrange(buf, 0, end);
            assert(bytes@ == text_of(buf@));
            match core::str::from_utf8(bytes) {
                Ok(text) => {
                    proof {
                        encode_utf8_decode_utf8(text@);
                    }
                    Ok(text)
                },
                Err(_) => Err(BoundaryFault::InvalidEncoding),
            }
        },
    }
}

/// Checks a buffer of any content: a fault where it is unterminated or its
/// text is not well-formed UTF-8, else whether its text is the greeting.
pub fn try_check_test_string(buf: &[u8]) -> (checked: Result<bool, BoundaryFault>)
    ensures
        checked == outcome(buf@),
{
    match decode_text(buf) {
        Ok(text) => Ok(matches_greeting(text)),
        Err(fault) => Err(fault),
    }
}

/// Says whether the text of `buf` is exactly the greeting. The buffer must be
/// terminated and its text well-formed UTF-8.
pub fn check_test_string(buf: &[u8]) -> (matched: bool)
    requires
        is_terminated(buf@),
        valid_utf8(text_of(buf@)),
    ensures
        matched == (text_of(buf@) == greeting_bytes()),
        matched == (decode_utf8(text_of(buf@)) == greeting()),
{
    match decode_text(buf) {
        Ok(text) => matches_greeting(text),
        Err(_) => unreached(),
    }
}

/// The greeting followed by a terminator is accepted, whatever stands behind
/// the terminator.
pub proof fn lemma_greeting_is_accepted(buf: Seq<u8>)
    requires
        buf.len() > greeting_bytes().len(),
        buf.take(greeting_bytes().len() as int) == greeting_bytes(),
        buf[greeting_bytes().len() as int] == TERMINATOR,
    ensures
        outcome(buf) == Ok::<bool, BoundaryFault>(true),
{
    lemma_greeting_bytes();
    let end = greeting_bytes().len() as int;
    assert forall|j: int| 0 <= j < end implies buf[j] != TERMINATOR by {
        assert(buf[j] == buf.take(end)[j]);
    }
    lemma_first_terminator_unique(buf, end);
    encode_utf8_valid_utf8(greeting());
}

/// The answer is `true` for the greeting and for no other text, and `false`
/// for every other well-formed text: a part of the greeting, the greeting
/// with something before or behind it, or in another case.
pub proof fn lemma_accepts_only_the_greeting(buf: Seq<u8>)
    ensures
        outcome(buf) == Ok::<bool, BoundaryFault>(true) <==> is_terminated(buf) && text_of(buf)
            == greeting_bytes(),
        outcome(buf) == Ok::<bool, BoundaryFault>(false) <==> is_terminated(buf) && valid_utf8(
            text_of(buf),
        ) && text_of(buf) != greeting_bytes(),
{
    encode_utf8_valid_utf8(greeting());
}

/// A buffer that begins with the terminator holds the empty text, which is
/// well-formed and is not the greeting.
pub proof fn lemma_empty_text_is_rejected(buf: Seq<u8>)
    requires
        buf.len() > 0,
        buf[0] == TERMINATOR,
    ensures
        text_of(buf) == Seq::<u8>::empty(),
        outcome(buf) == Ok::<bool, BoundaryFault>(false),
{
    lemma_greeting_bytes();
    lemma_first_terminator_unique(buf, 0);
    assert(buf.take(0) =~= Seq::<u8>::empty());
    assert(valid_utf8(Seq::<u8>::empty()));
}

/// A text that is not well-formed UTF-8 gets no answer, neither `true` nor
/// `false`: the outcome is the encoding fault.
pub proof fn lemma_malformed_text_is_a_fault(buf: Seq<u8>)
    requires
        is_terminated(buf),
        !valid_utf8(text_of(buf)),
    ensures
        outcome(buf) == Err::<bool, BoundaryFault>(BoundaryFault::InvalidEncoding),
        outcome(buf) != Ok::<bool, BoundaryFault>(false),
{
}

/// The outcome depends on the text alone. Two terminated buffers with the
/// same bytes before their first terminator have the same outcome, and so has
/// one buffer that is handed over twice.
pub proof fn lemma_same_text_same_outcome(first: Seq<u8>, second: Seq<u8>)
    requires
        is_terminated(first),
        is_terminated(second),
        text_of(first) == text_of(second),
    ensures
        outcome(first) == outcome(second),
{
}

} // verus!
