//! Scanning helpers shared by the text parsers.

use vstd::prelude::*;

verus! {

/// The index of the first occurrence of `ch` in `s`, or `s.len()` if
/// there is none.
pub open spec fn first_index_of(s: Seq<char>, ch: char) -> int
    decreases s.len(),
{
    if s.len() == 0 {
        0
    } else if s[0] == ch {
        0
    } else {
        1 + first_index_of(s.skip(1), ch)
    }
}

/// `first_index_of` is exactly the index a left-to-right scan finds: if
/// nothing before `i` is `ch`, and `i` holds `ch` or is the end, then
/// `first_index_of` is `i`.
pub proof fn lemma_first_index_of_is(s: Seq<char>, ch: char, i: int)
    requires
        0 <= i <= s.len(),
        forall|j: int| 0 <= j < i ==> s[j] != ch,
        i < s.len() ==> s[i] == ch,
    ensures
        first_index_of(s, ch) == i,
    decreases s.len(),
{
    if i == 0 {
        if s.len() != 0 && s[0] != ch {
            assert(false);
        }
    } else {
        assert(s[0] != ch);
        lemma_first_index_of_is(s.skip(1), ch, i - 1);
    }
}

} // verus!
