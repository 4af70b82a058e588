//! Small things about text that several parts of the library need.

use vstd::prelude::*;
use vstd::string::*;

verus! {

/// The text of an optional string.
pub open spec fn text_view(s: Option<String>) -> Option<Seq<char>> {
    match s {
        Some(s) => Some(s@),
        None => None,
    }
}

/// A copy of an optional string.
pub fn clone_text(s: &Option<String>) -> (res: Option<String>)
    ensures
        text_view(res) == text_view(*s),
{
    match s {
        Some(s) => Some(s.clone()),
        None => None,
    }
}

/// Whether two strings hold the same characters.
pub fn str_eq(a: &str, b: &str) -> (res: bool)
    ensures
        res == (a@ == b@),
{
    let x = String::from_str(a);
    let y = String::from_str(b);
    x == y
}

/// Whether `prefix` stands at the start of `text`.
pub fn has_prefix(text: &str, prefix: &str) -> (res: bool)
    ensures
        res == prefix@.is_prefix_of(text@),
{
    let n = text.unicode_len();
    let p = prefix.unicode_len();
    if n < p {
        return false;
    }
    let mut i: usize = 0;
    while i < p
        invariant
            i <= p,
            p <= n,
            p == prefix@.len(),
            n == text@.len(),
            forall|j: int| 0 <= j < i ==> text@[j] == prefix@[j],
        decreases p - i,
    {
        if text.get_char(i) != prefix.get_char(i) {
            assert(!prefix@.is_prefix_of(text@)) by {
                if prefix@.is_prefix_of(text@) {
                    assert(text@.subrange(0, p as int)[i as int] == text@[i as int]);
                }
            }
            return false;
        }
        i = i + 1;
    }
    assert(text@.subrange(0, p as int) =~= prefix@);
    true
}

} // verus!
