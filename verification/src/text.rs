//! Small helpers on text.

use vstd::prelude::*;

verus! {

/// Whether two texts are equal.
pub fn same_text(a: &str, b: &str) -> (r: bool)
    ensures
        r == (a@ == b@),
{
    a.to_owned() == b.to_owned()
}

/// `text` ends with `suffix`.
pub open spec fn is_suffix(text: Seq<char>, suffix: Seq<char>) -> bool {
    suffix.len() <= text.len() && text.skip(text.len() - suffix.len()) == suffix
}

/// Whether `text` ends with `suffix`.
pub fn ends_with_text(text: &str, suffix: &str) -> (r: bool)
    ensures
        r == is_suffix(text@, suffix@),
{
    let length: usize = text.unicode_len();
    let wanted: usize = suffix.unicode_len();
    if wanted > length {
        return false;
    }
    let start: usize = length - wanted;
    let mut i: usize = 0;
    while i < wanted
        invariant
            i <= wanted,
            wanted == suffix@.len(),
            start + wanted == length,
            length == text@.len(),
            forall|k: int| 0 <= k < i ==> text@[start + k] == #[trigger] suffix@[k],
        decreases wanted - i,
    {
        if text.get_char(start + i) != suffix.get_char(i) {
            assert(text@.skip(start as int)[i as int] != suffix@[i as int]);
            return false;
        }
        i += 1;
    }
    assert(text@.skip(start as int) =~= suffix@);
    true
}

/// Whether `text` holds a NUL, which no C string can carry.
pub fn has_nul(text: &str) -> (r: bool)
    ensures
        r == text@.contains('\0'),
{
    let length: usize = text.unicode_len();
    let mut i: usize = 0;
    while i < length
        invariant
            i <= length,
            length == text@.len(),
            forall|k: int| 0 <= k < i ==> text@[k] != '\0',
        decreases length - i,
    {
        if text.get_char(i) == '\0' {
            assert(text@[i as int] == '\0');
            return true;
        }
        i += 1;
    }
    false
}

} // verus!
