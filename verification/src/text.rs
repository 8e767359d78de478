//! Comparisons and cuts of strings, by characters.

use vstd::prelude::*;
use vstd::string::*;

verus! {

/// Whether two strings hold the same characters.
pub fn same_text(a: &str, b: &str) -> (r: bool)
    ensures
        r == (a@ == b@),
{
    a.to_owned() == b.to_owned()
}

/// Whether two lists hold the same strings in the same order.
pub fn same_list(a: &Vec<String>, b: &Vec<String>) -> (r: bool)
    ensures
        r == (a.deep_view() == b.deep_view()),
{
    assert(a.deep_view().len() == a@.len() && b.deep_view().len() == b@.len());
    if a.len() != b.len() {
        return false;
    }
    let mut i: usize = 0;
    while i < a.len()
        invariant
            i <= a.len(),
            a.len() == b.len(),
            forall|j: int| 0 <= j < i ==> a.deep_view()[j] == b.deep_view()[j],
        decreases a.len() - i,
    {
        assert(a.deep_view()[i as int] == a@[i as int]@);
        assert(b.deep_view()[i as int] == b@[i as int]@);
        if !same_text(a[i].as_str(), b[i].as_str()) {
            return false;
        }
        i += 1;
    }
    assert(a.deep_view() =~= b.deep_view());
    true
}

/// `text` without `suffix` at its end, or `text` whole where it does not end
/// in `suffix`.
pub open spec fn without_suffix(text: Seq<char>, suffix: Seq<char>) -> Seq<char> {
    if ends_with(text, suffix) {
        text.subrange(0, text.len() - suffix.len())
    } else {
        text
    }
}

/// Whether `text` ends in `suffix`.
pub open spec fn ends_with(text: Seq<char>, suffix: Seq<char>) -> bool {
    suffix.len() <= text.len() && text.subrange(text.len() - suffix.len(), text.len() as int)
        == suffix
}

/// Cuts `suffix` off the end of `text`, where `text` ends in it.
pub fn strip_suffix(text: &str, suffix: &str) -> (r: String)
    ensures
        r@ == without_suffix(text@, suffix@),
{
    let n = text.unicode_len();
    let m = suffix.unicode_len();
    if m <= n && same_text(text.substring_char(n - m, n), suffix) {
        text.substring_char(0, n - m).to_owned()
    } else {
        text.to_owned()
    }
}

/// What was appended is what is cut off.
pub proof fn lemma_append_then_strip(stem: Seq<char>, suffix: Seq<char>)
    ensures
        ends_with(stem + suffix, suffix),
        without_suffix(stem + suffix, suffix) == stem,
{
    let text = stem + suffix;
    assert(text.subrange(text.len() - suffix.len(), text.len() as int) =~= suffix);
    assert(text.subrange(0, text.len() - suffix.len()) =~= stem);
}

} // verus!
