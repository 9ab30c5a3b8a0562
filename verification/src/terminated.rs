//! Zero-terminated byte buffers: where the text ends and which bytes it holds.

use vstd::prelude::*;

verus! {

/// The byte that ends a text.
pub const TERMINATOR: u8 = 0;

/// `at` is the position of the first terminator of `buf`.
pub open spec fn first_terminator(buf: Seq<u8>, at: int) -> bool {
    &&& 0 <= at < buf.len()
    &&& buf[at] == TERMINATOR
    &&& forall|j: int| 0 <= j < at ==> buf[j] != TERMINATOR
}

/// `buf` holds a terminator somewhere.
pub open spec fn is_terminated(buf: Seq<u8>) -> bool {
    exists|at: int| first_terminator(buf, at)
}

/// The number of bytes before the first terminator of `buf`.
pub open spec fn text_len(buf: Seq<u8>) -> int
    recommends
        is_terminated(buf),
{
    choose|at: int| first_terminator(buf, at)
}

/// The bytes of `buf` before its first terminator.
pub open spec fn text_of(buf: Seq<u8>) -> Seq<u8>
    recommends
        is_terminated(buf),
{
    buf.take(text_len(buf))
}

/// A buffer has at most one first terminator, so a position that is one is
/// the length of the text.
pub proof fn lemma_first_terminator_unique(buf: Seq<u8>, at: int)
    requires
        first_terminator(buf, at),
    ensures
        is_terminated(buf),
        text_len(buf) == at,
        text_of(buf) == buf.take(at),
{
    let other = text_len(buf);
    assert(first_terminator(buf, other));
    if other < at {
        assert(buf[other] != TERMINATOR);
    }
    if at < other {
        assert(buf[at] != TERMINATOR);
    }
}

/// Scans `buf` from the front for the terminator.
pub fn terminator_index(buf: &[u8]) -> (found: Option<usize>)
    ensures
        found is Some <==> is_terminated(buf@),
        found matches Some(at) ==> first_terminator(buf@, at as int) && at == text_len(buf@),
{
    let mut i: usize = 0;
    while i < buf.len()
        invariant
            i <= buf.len(),
            forall|j: int| 0 <= j < i ==> buf@[j] != TERMINATOR,
        decreases buf.len() - i,
    {
        if buf[i] == TERMINATOR {
            proof {
                lemma_first_terminator_unique(buf@, i as int);
            }
            return Some(i);
        }
        i += 1;
    }
    assert forall|at: int| !first_terminator(buf@, at) by {
        if 0 <= at < buf@.len() {
            assert(buf@[at] != TERMINATOR);
        }
    }
    None
}

} // verus!
