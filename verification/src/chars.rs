//! Reading the characters of a text one by one.

use vstd::prelude::*;

verus! {

/// The characters of `text`, in order.
pub(crate) fn chars_of(text: &str) -> (chars: Vec<char>)
    ensures
        chars@ == text@,
{
    let mut chars: Vec<char> = Vec::new();
    for c in it: text.chars()
        invariant
            it.seq() == text@,
            chars@ == text@.take(it.index() as int),
    {
        chars.push(c);
    }
    chars
}

/// Whether `chars` begins with `wanted`.
pub(crate) fn begins_with(chars: &Vec<char>, wanted: &Vec<char>) -> (found: bool)
    ensures
        found == (wanted.len() <= chars.len() && chars@.subrange(0, wanted.len() as int)
            == wanted@),
{
    if wanted.len() > chars.len() {
        return false;
    }
    let ghost front = chars@.subrange(0, wanted.len() as int);
    let mut i: usize = 0;
    while i < wanted.len()
        invariant
            i <= wanted.len() <= chars.len(),
            front == chars@.subrange(0, wanted.len() as int),
            forall|k: int| 0 <= k < i ==> front[k] == wanted@[k],
        decreases wanted.len() - i,
    {
        if chars[i] != wanted[i] {
            return false;
        }
        i = i + 1;
    }
    assert(front =~= wanted@);
    true
}

/// Whether `chars` are the characters of `text`.
pub(crate) fn same_text(chars: &Vec<char>, text: &str) -> (same: bool)
    ensures
        same == (chars@ == text@),
{
    let wanted = chars_of(text);
    proof {
        if chars.len() == wanted.len() {
            assert(chars@.subrange(0, wanted.len() as int) =~= chars@);
        }
    }
    chars.len() == wanted.len() && begins_with(chars, &wanted)
}

} // verus!
