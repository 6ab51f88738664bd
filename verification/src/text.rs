//! Small helpers on text, shared by the other modules.

use vstd::prelude::*;
use vstd::string::*;

verus! {

/// The texts of a list of strings, in order.
pub open spec fn texts_of(list: Seq<String>) -> Seq<Seq<char>> {
    Seq::new(list.len(), |i: int| list[i]@)
}

/// The optional text as a sequence of characters.
pub open spec fn option_text(text: Option<String>) -> Option<Seq<char>> {
    match text {
        Some(t) => Some(t@),
        None => None,
    }
}

/// `text` begins with `prefix`.
pub open spec fn starts_with(text: Seq<char>, prefix: Seq<char>) -> bool {
    prefix.len() <= text.len() && text.subrange(0, prefix.len() as int) == prefix
}

/// What follows the first `count` characters of `text`.
pub open spec fn after(text: Seq<char>, count: nat) -> Seq<char> {
    text.subrange(count as int, text.len() as int)
}

/// The rest of `text` after `prefix`, where `text` begins with it.
pub fn strip_prefix<'a>(text: &'a str, prefix: &str) -> (r: Option<&'a str>)
    ensures
        r is Some == starts_with(text@, prefix@),
        r is Some ==> r.unwrap()@ == after(text@, prefix@.len()),
{
    let n = text.unicode_len();
    let k = prefix.unicode_len();
    if n < k {
        return None;
    }
    let mut i: usize = 0;
    while i < k
        invariant
            i <= k <= n,
            k == prefix@.len(),
            n == text@.len(),
            forall|j: int| 0 <= j < i ==> text@[j] == prefix@[j],
        decreases k - i,
    {
        if text.get_char(i) != prefix.get_char(i) {
            assert(text@.subrange(0, k as int)[i as int] != prefix@[i as int]);
            return None;
        }
        i += 1;
    }
    assert(text@.subrange(0, k as int) =~= prefix@);
    Some(text.substring_char(k, n))
}

} // verus!
