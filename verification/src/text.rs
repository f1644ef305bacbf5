//! Texts as sequences of characters: the operations on strings that the rest
//! of the library is stated over.

use vstd::prelude::*;
use vstd::string::*;

verus! {

/// The text that `str::to_uppercase` makes of `text`.
pub uninterp spec fn uppercased(text: Seq<char>) -> Seq<char>;

/// `str::to_uppercase` returns the upper-case form of a text, which depends
/// on the text alone; the contract gives that form its name and claims
/// nothing else of it.
pub assume_specification[ str::to_uppercase ](text: &str) -> (upper: String)
    ensures
        upper@ == uppercased(text@),
;

/// The text that `str::trim` leaves of `text`.
pub uninterp spec fn trimmed(text: Seq<char>) -> Seq<char>;

/// `str::trim` returns the text without its leading and trailing white
/// space, which depends on the text alone; the contract gives that rest its
/// name and claims nothing else of it.
pub assume_specification[ str::trim ](text: &str) -> (inner: &str)
    ensures
        inner@ == trimmed(text@),
;

/// The texts of a list of strings.
pub open spec fn texts(strings: Seq<String>) -> Seq<Seq<char>> {
    Seq::new(strings.len(), |i: int| strings[i]@)
}

/// Whether `text` begins with `prefix`.
pub open spec fn has_prefix(text: Seq<char>, prefix: Seq<char>) -> bool {
    prefix.len() <= text.len() && text.subrange(0, prefix.len() as int) == prefix
}

/// Tests whether `text` begins with `prefix`.
pub fn starts_with(text: &str, prefix: &str) -> (found: bool)
    ensures
        found == has_prefix(text@, prefix@),
{
    let n: usize = prefix.unicode_len();
    if text.unicode_len() < n {
        return false;
    }
    let mut i: usize = 0;
    while i < n
        invariant
            n == prefix@.len(),
            n <= text@.len(),
            i <= n,
            forall|j: int| 0 <= j < i ==> text@[j] == prefix@[j],
        decreases n - i,
    {
        if text.get_char(i) != prefix.get_char(i) {
            return false;
        }
        i = i + 1;
    }
    assert(text@.subrange(0, n as int) =~= prefix@);
    true
}

/// Whether `i` is the place of the first `c` in `text`.
pub open spec fn is_first(text: Seq<char>, c: char, i: int) -> bool {
    &&& 0 <= i < text.len()
    &&& text[i] == c
    &&& forall|j: int| 0 <= j < i ==> text[j] != c
}

/// Finds the first `c` in `text`.
pub fn find_char(text: &str, c: char) -> (found: Option<usize>)
    ensures
        match found {
            Some(i) => is_first(text@, c, i as int),
            None => !text@.contains(c),
        },
{
    let n: usize = text.unicode_len();
    let mut i: usize = 0;
    while i < n
        invariant
            n == text@.len(),
            i <= n,
            forall|j: int| 0 <= j < i ==> text@[j] != c,
        decreases n - i,
    {
        if text.get_char(i) == c {
            return Some(i);
        }
        i = i + 1;
    }
    None
}

/// The texts of a list, in their order, with a slash between each two.
pub open spec fn joined(parts: Seq<Seq<char>>) -> Seq<char>
    decreases parts.len(),
{
    if parts.len() == 0 {
        Seq::empty()
    } else if parts.len() == 1 {
        parts[0]
    } else {
        joined(parts.drop_last()) + "/"@ + parts.last()
    }
}

/// Joins texts with slashes.
pub fn join_path(parts: &Vec<String>) -> (text: String)
    ensures
        text@ == joined(texts(parts@)),
{
    let mut text = String::new();
    let mut k: usize = 0;
    while k < parts.len()
        invariant
            k <= parts@.len(),
            text@ == joined(texts(parts@).subrange(0, k as int)),
        decreases parts@.len() - k,
    {
        if k > 0 {
            text.append("/");
        }
        text.append(parts[k].as_str());
        proof {
            let upto = texts(parts@).subrange(0, k + 1);
            assert(upto.drop_last() =~= texts(parts@).subrange(0, k as int));
        }
        k = k + 1;
    }
    assert(texts(parts@).subrange(0, k as int) =~= texts(parts@));
    text
}

} // verus!
