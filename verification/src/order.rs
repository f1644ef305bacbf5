//! The order of texts: the order in which `String` compares, character by
//! character, and sorting by it.

use vstd::prelude::*;
use vstd::relations::{sorted_by, total_ordering};
use vstd::seq_lib::{lemma_sorted_unique, to_multiset_insert};
use vstd::string::*;

use crate::text::texts;

verus! {

/// Whether two texts are the same in their first `k` places.
pub open spec fn agree_upto(a: Seq<char>, b: Seq<char>, k: int) -> bool {
    forall|j: int| 0 <= j < k ==> a[j] == b[j]
}

/// Whether place `k` shows that `a` comes no later than `b`: the texts are
/// the same before it, and there `a` ends, or has the smaller character.
pub open spec fn precedes_at(a: Seq<char>, b: Seq<char>, k: int) -> bool {
    &&& 0 <= k <= a.len()
    &&& k <= b.len()
    &&& agree_upto(a, b, k)
    &&& (k == a.len() || (k < b.len() && (a[k] as int) < (b[k] as int)))
}

/// Whether `a` comes no later than `b`.
pub open spec fn text_le(a: Seq<char>, b: Seq<char>) -> bool {
    exists|k: int| precedes_at(a, b, k)
}

/// Whether each text of a list comes no later than those after it.
pub open spec fn is_sorted(list: Seq<Seq<char>>) -> bool {
    forall|i: int, j: int| 0 <= i < j < list.len() ==> text_le(#[trigger] list[i], #[trigger] list[j])
}

/// Whether `sorted` holds the texts of `list`, each as often as `list`
/// does, in order.
pub open spec fn is_sorting_of(sorted: Seq<Seq<char>>, list: Seq<Seq<char>>) -> bool {
    &&& is_sorted(sorted)
    &&& sorted.to_multiset() == list.to_multiset()
}

/// Where two texts stop being the same, from `from` on.
spec fn first_difference(a: Seq<char>, b: Seq<char>, from: int) -> int
    decreases a.len() - from,
{
    if 0 <= from < a.len() && from < b.len() && a[from] == b[from] {
        first_difference(a, b, from + 1)
    } else {
        from
    }
}

proof fn lemma_first_difference(a: Seq<char>, b: Seq<char>, from: int)
    requires
        0 <= from <= a.len(),
        from <= b.len(),
        agree_upto(a, b, from),
    ensures
        ({
            let d = first_difference(a, b, from);
            &&& from <= d <= a.len()
            &&& d <= b.len()
            &&& agree_upto(a, b, d)
            &&& (d == a.len() || d == b.len() || a[d] != b[d])
        }),
    decreases a.len() - from,
{
    if from < a.len() && from < b.len() && a[from] == b[from] {
        lemma_first_difference(a, b, from + 1);
    }
}

/// The place where two texts stop being the same decides their order.
proof fn lemma_decided_at(a: Seq<char>, b: Seq<char>, d: int)
    requires
        0 <= d <= a.len(),
        d <= b.len(),
        agree_upto(a, b, d),
        d == a.len() || d == b.len() || a[d] != b[d],
    ensures
        text_le(a, b) <==> (d == a.len() || (d < b.len() && (a[d] as int) < (b[d] as int))),
{
    if text_le(a, b) {
        let k = choose|k: int| precedes_at(a, b, k);
        assert(k == d);
    }
    if d == a.len() || (d < b.len() && (a[d] as int) < (b[d] as int)) {
        assert(precedes_at(a, b, d));
    }
}

/// Of two texts, one comes no later than the other.
pub proof fn lemma_text_le_total(a: Seq<char>, b: Seq<char>)
    ensures
        text_le(a, b) || text_le(b, a),
{
    lemma_first_difference(a, b, 0);
    let d = first_difference(a, b, 0);
    lemma_decided_at(a, b, d);
    lemma_decided_at(b, a, d);
}

/// What comes no later than a text comes no later than all that the text
/// comes no later than.
pub proof fn lemma_text_le_transitive(a: Seq<char>, b: Seq<char>, c: Seq<char>)
    requires
        text_le(a, b),
        text_le(b, c),
    ensures
        text_le(a, c),
{
    let k1 = choose|k: int| precedes_at(a, b, k);
    let k2 = choose|k: int| precedes_at(b, c, k);
    if k1 <= k2 {
        assert(precedes_at(a, c, k1));
    } else {
        assert(precedes_at(a, c, k2));
    }
}

/// Two texts that come no later than each other are the same: a list has
/// one sorting.
pub proof fn lemma_text_le_antisymmetric(a: Seq<char>, b: Seq<char>)
    requires
        text_le(a, b),
        text_le(b, a),
    ensures
        a == b,
{
    lemma_first_difference(a, b, 0);
    let d = first_difference(a, b, 0);
    lemma_decided_at(a, b, d);
    lemma_decided_at(b, a, d);
}

/// A list has one sorting: two lists that both hold its texts in order are
/// the same list.
pub proof fn lemma_sorting_is_unique(a: Seq<Seq<char>>, b: Seq<Seq<char>>, list: Seq<Seq<char>>)
    requires
        is_sorting_of(a, list),
        is_sorting_of(b, list),
    ensures
        a == b,
{
    let leq = |x: Seq<char>, y: Seq<char>| text_le(x, y);
    assert(total_ordering(leq)) by {
        assert forall|x: Seq<char>| #[trigger] leq(x, x) by {
            assert(precedes_at(x, x, x.len() as int));
        }
        assert forall|x: Seq<char>, y: Seq<char>| #[trigger] leq(x, y) && #[trigger] leq(y, x) implies x
            == y by {
            lemma_text_le_antisymmetric(x, y);
        }
        assert forall|x: Seq<char>, y: Seq<char>, z: Seq<char>| #[trigger]
            leq(x, y) && #[trigger] leq(y, z) implies leq(x, z) by {
            lemma_text_le_transitive(x, y, z);
        }
        assert forall|x: Seq<char>, y: Seq<char>| #[trigger] leq(x, y) || #[trigger] leq(y, x) by {
            lemma_text_le_total(x, y);
        }
    }
    lemma_sorted_unique(a, b, leq);
}

/// Tells whether `a` comes no later than `b`.
pub fn in_order(a: &str, b: &str) -> (yes: bool)
    ensures
        yes == text_le(a@, b@),
{
    let la: usize = a.unicode_len();
    let lb: usize = b.unicode_len();
    let mut i: usize = 0;
    while i < la && i < lb
        invariant
            la == a@.len(),
            lb == b@.len(),
            i <= la,
            i <= lb,
            agree_upto(a@, b@, i as int),
        decreases la - i,
    {
        let ca: char = a.get_char(i);
        let cb: char = b.get_char(i);
        if ca != cb {
            proof {
                lemma_decided_at(a@, b@, i as int);
            }
            return (ca as u32) < (cb as u32);
        }
        i = i + 1;
    }
    proof {
        lemma_decided_at(a@, b@, i as int);
    }
    la <= lb
}

/// Sorts texts: the result holds each text of `list` as often as `list`
/// does, each no later than those after it.
pub fn sort_texts(list: &Vec<String>) -> (sorted: Vec<String>)
    ensures
        is_sorting_of(texts(sorted@), texts(list@)),
{
    let mut sorted: Vec<String> = Vec::new();
    let mut k: usize = 0;
    assert(texts(sorted@) =~= texts(list@).subrange(0, 0));
    while k < list.len()
        invariant
            k <= list@.len(),
            is_sorted(texts(sorted@)),
            texts(sorted@).to_multiset() == texts(list@).subrange(0, k as int).to_multiset(),
        decreases list@.len() - k,
    {
        let text = list[k].clone();
        let mut p: usize = 0;
        let mut searching = true;
        while searching && p < sorted.len()
            invariant
                p <= sorted@.len(),
                forall|j: int| 0 <= j < p ==> text_le(#[trigger] texts(sorted@)[j], text@),
                !searching ==> p < sorted@.len() && !text_le(sorted@[p as int]@, text@),
            decreases sorted@.len() - p + (if searching { 1int } else { 0int }),
        {
            if in_order(sorted[p].as_str(), text.as_str()) {
                p = p + 1;
            } else {
                searching = false;
            }
        }
        let ghost before = texts(sorted@);
        sorted.insert(p, text);
        proof {
            let after = texts(sorted@);
            assert(after =~= before.insert(p as int, text@));
            to_multiset_insert(before, p as int, text@);
            let upto = texts(list@).subrange(0, k + 1);
            assert(upto =~= texts(list@).subrange(0, k as int).push(text@));
            vstd::seq_lib::to_multiset_build(texts(list@).subrange(0, k as int), text@);
            assert forall|i: int, j: int| 0 <= i < j < after.len() implies text_le(
                #[trigger] after[i],
                #[trigger] after[j],
            ) by {
                if i == p {
                    lemma_text_le_total(before[p as int], text@);
                    if j - 1 > p {
                        lemma_text_le_transitive(text@, before[p as int], before[j - 1]);
                    }
                }
            }
        }
        k = k + 1;
    }
    assert(texts(list@).subrange(0, k as int) =~= texts(list@));
    sorted
}

} // verus!
