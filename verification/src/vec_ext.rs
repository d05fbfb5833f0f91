//! Splitting an argument list at a separator.

use crate::text::texts;
use vstd::prelude::*;

verus! {

/// The smallest index at which `value` occurs in `items`; the length of
/// `items` if it does not occur.
pub open spec fn first_index(items: Seq<Seq<char>>, value: Seq<char>) -> int
    decreases items.len(),
{
    if items.len() == 0 || items[0] == value {
        0
    } else {
        1 + first_index(items.drop_first(), value)
    }
}

/// What lies before the first occurrence of `value`: everything, if there is none.
pub open spec fn before_first(items: Seq<Seq<char>>, value: Seq<char>) -> Seq<Seq<char>> {
    items.subrange(0, first_index(items, value))
}

/// What lies after the first occurrence of `value`: nothing, if there is none.
pub open spec fn after_first(items: Seq<Seq<char>>, value: Seq<char>) -> Seq<Seq<char>> {
    if first_index(items, value) < items.len() {
        items.subrange(first_index(items, value) + 1, items.len() as int)
    } else {
        Seq::empty()
    }
}

/// `first_index` is in range, nothing before it equals `value`, and the
/// element at it does, where there is one.
pub proof fn lemma_first_index(items: Seq<Seq<char>>, value: Seq<char>)
    ensures
        0 <= first_index(items, value) <= items.len(),
        forall|j: int| 0 <= j < first_index(items, value) ==> items[j] != value,
        first_index(items, value) < items.len() ==> items[first_index(items, value)] == value,
        first_index(items, value) == items.len() <==> !items.contains(value),
    decreases items.len(),
{
    if items.len() == 0 || items[0] == value {
    } else {
        let rest = items.drop_first();
        lemma_first_index(rest, value);
        assert forall|j: int| 0 <= j < first_index(items, value) implies items[j] != value by {
            if j > 0 {
                assert(items[j] == rest[j - 1]);
            }
        }
        if first_index(items, value) < items.len() {
            assert(items[first_index(items, value)] == rest[first_index(rest, value)]);
        }
        if items.contains(value) {
            let k = choose|k: int| 0 <= k < items.len() && items[k] == value;
            assert(rest[k - 1] == value);
        }
    }
}

/// An index that holds `value`, with no occurrence before it, is the first index.
pub proof fn lemma_first_index_unique(items: Seq<Seq<char>>, value: Seq<char>, i: int)
    requires
        0 <= i <= items.len(),
        forall|j: int| 0 <= j < i ==> items[j] != value,
        i < items.len() ==> items[i] == value,
    ensures
        first_index(items, value) == i,
{
    lemma_first_index(items, value);
}

/// Splits `original_vec` at the first element equal to `split_value`. The
/// element itself is dropped; later occurrences stay in the second part.
pub fn split_at_first_occurrence(original_vec: Vec<String>, split_value: &String) -> (parts: (
    Vec<String>,
    Vec<String>,
))
    ensures
        texts(parts.0@) == before_first(texts(original_vec@), split_value@),
        texts(parts.1@) == after_first(texts(original_vec@), split_value@),
{
    let ghost all = texts(original_vec@);
    let mut first = original_vec;
    let mut index: usize = 0;
    while index < first.len()
        invariant
            first == original_vec,
            all == texts(original_vec@),
            index <= first.len(),
            forall|j: int| 0 <= j < index ==> all[j] != split_value@,
        decreases first.len() - index,
    {
        if first[index] == *split_value {
            let mut second = first.split_off(index);
            let _ = second.remove(0);
            proof {
                lemma_first_index_unique(all, split_value@, index as int);
                assert(texts(first@) =~= all.subrange(0, index as int));
                assert(texts(second@) =~= all.subrange(index + 1, all.len() as int));
            }
            return (first, second);
        }
        index += 1;
    }
    proof {
        lemma_first_index_unique(all, split_value@, all.len() as int);
        assert(texts(first@) =~= all.subrange(0, all.len() as int));
        assert(texts(Seq::<String>::empty()) =~= Seq::<Seq<char>>::empty());
    }
    (first, Vec::new())
}

} // verus!
