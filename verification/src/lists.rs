//! Lists of asset ids: search, removal, replacement in place and the test
//! for a permutation, with what each does to membership.

use vstd::prelude::*;
use vstd::seq_lib::*;
use vstd::set_lib::lemma_subset_equality;
use crate::types::AssetId;

verus! {

/// `list` without the first occurrence of `asset`.
pub open spec fn without(list: Seq<AssetId>, asset: AssetId) -> Seq<AssetId> {
    list.remove_value(asset)
}

/// `list` with `asset` in the place of the first occurrence of `target`.
pub open spec fn replaced(list: Seq<AssetId>, target: AssetId, asset: AssetId) -> Seq<AssetId> {
    match list.index_of_first(target) {
        Some(i) => list.update(i, asset),
        None => list,
    }
}

/// Whether `priorities` holds the ids of `list`, each as often as `list`
/// does, in any order.
pub open spec fn is_permutation(priorities: Seq<AssetId>, list: Seq<AssetId>) -> bool {
    priorities.to_multiset() == list.to_multiset()
}

/// The first occurrence of an id that a list holds is the first index at
/// which it stands.
pub proof fn lemma_first_index(list: Seq<AssetId>, asset: AssetId, i: int)
    requires
        0 <= i < list.len(),
        list[i] == asset,
        forall|j: int| 0 <= j < i ==> list[j] != asset,
    ensures
        list.index_of_first(asset) == Some(i),
{
    list.index_of_first_ensures(asset);
    assert(list.contains(asset));
}

/// An id that a list does not hold has no first occurrence.
pub proof fn lemma_no_index(list: Seq<AssetId>, asset: AssetId)
    requires
        !list.contains(asset),
    ensures
        list.index_of_first(asset) is None,
        without(list, asset) == list,
{
    list.index_of_first_ensures(asset);
}

/// A list without duplicates stays so when an id that it does not hold is
/// appended, and then holds that id and what it held.
pub proof fn lemma_push(list: Seq<AssetId>, asset: AssetId)
    requires
        list.no_duplicates(),
        !list.contains(asset),
    ensures
        list.push(asset).no_duplicates(),
        forall|x: AssetId| #[trigger]
            list.push(asset).contains(x) <==> x == asset || list.contains(x),
        without(list.push(asset), asset) == list,
{
    let pushed = list.push(asset);
    assert forall|x: AssetId| #[trigger] pushed.contains(x) <==> x == asset || list.contains(
        x,
    ) by {
        if pushed.contains(x) {
            let i = choose|i: int| 0 <= i < pushed.len() && pushed[i] == x;
            if i < list.len() {
                assert(list[i] == x);
            }
        }
        if list.contains(x) {
            let i = choose|i: int| 0 <= i < list.len() && list[i] == x;
            assert(pushed[i] == x);
        }
        if x == asset {
            assert(pushed[list.len() as int] == x);
        }
    }
    assert forall|j: int| 0 <= j < list.len() implies pushed[j] != asset by {
        assert(list[j] == pushed[j]);
    }
    lemma_first_index(pushed, asset, list.len() as int);
    assert(pushed.remove(list.len() as int) =~= list);
}

/// A list without duplicates stays so when an id is taken out. It then no
/// longer holds that id, and holds every other id that it held.
pub proof fn lemma_without(list: Seq<AssetId>, asset: AssetId)
    requires
        list.no_duplicates(),
    ensures
        without(list, asset).no_duplicates(),
        !without(list, asset).contains(asset),
        forall|x: AssetId| #[trigger]
            without(list, asset).contains(x) <==> x != asset && list.contains(x),
        list.contains(asset) ==> without(list, asset).len() == list.len() - 1,
{
    list.index_of_first_ensures(asset);
    match list.index_of_first(asset) {
        None => {},
        Some(i) => {
            let rest = list.remove(i);
            assert forall|x: AssetId| #[trigger] rest.contains(x) <==> x != asset && list.contains(
                x,
            ) by {
                if rest.contains(x) {
                    let j = choose|j: int| 0 <= j < rest.len() && rest[j] == x;
                    if j < i {
                        assert(list[j] == x);
                    } else {
                        assert(list[j + 1] == x);
                    }
                }
                if x != asset && list.contains(x) {
                    let j = choose|j: int| 0 <= j < list.len() && list[j] == x;
                    if j < i {
                        assert(rest[j] == x);
                    } else {
                        assert(rest[j - 1] == x);
                    }
                }
            }
        },
    }
}

/// A list without duplicates stays so when one of its ids gives way to an
/// id that it does not hold. It then holds the new id in place of the old.
pub proof fn lemma_replaced(list: Seq<AssetId>, target: AssetId, asset: AssetId)
    requires
        list.no_duplicates(),
        list.contains(target),
        !list.contains(asset),
    ensures
        replaced(list, target, asset).no_duplicates(),
        replaced(list, target, asset).len() == list.len(),
        forall|x: AssetId| #[trigger]
            replaced(list, target, asset).contains(x) <==> x == asset || (x != target
                && list.contains(x)),
{
    list.index_of_first_ensures(target);
    let i = list.index_of_first(target).unwrap();
    let next = list.update(i, asset);
    assert forall|x: AssetId| #[trigger] next.contains(x) <==> x == asset || (x != target
        && list.contains(x)) by {
        if next.contains(x) {
            let j = choose|j: int| 0 <= j < next.len() && next[j] == x;
            if j != i {
                assert(list[j] == x);
            }
        }
        if x != target && list.contains(x) {
            let j = choose|j: int| 0 <= j < list.len() && list[j] == x;
            assert(next[j] == x);
        }
        if x == asset {
            assert(next[i] == x);
        }
    }
    assert forall|a: int, b: int|
        0 <= a < next.len() && 0 <= b < next.len() && a != b implies next[a] != next[b] by {
        if a != i && b != i {
            assert(list[a] != list[b]);
        } else if a == i {
            assert(list[b] == next[b]);
        } else {
            assert(list[a] == next[a]);
        }
    }
}

/// A permutation of a list without duplicates has none either, and holds
/// the same ids.
pub proof fn lemma_permutation(priorities: Seq<AssetId>, list: Seq<AssetId>)
    requires
        list.no_duplicates(),
        is_permutation(priorities, list),
    ensures
        priorities.no_duplicates(),
        priorities.len() == list.len(),
        forall|x: AssetId| #[trigger] priorities.contains(x) <==> list.contains(x),
{
    broadcast use {to_multiset_len, to_multiset_contains};

    list.lemma_multiset_has_no_duplicates();
    priorities.lemma_multiset_has_no_duplicates_conv();
    assert(priorities.len() == list.len()) by {
        to_multiset_len(priorities);
        to_multiset_len(list);
    }
    assert forall|x: AssetId| #[trigger] priorities.contains(x) <==> list.contains(x) by {
        assert(priorities.to_multiset().count(x) == list.to_multiset().count(x));
    }
}

/// Two lists without duplicates, of one length, are permutations of each
/// other where every id of the first is in the second.
pub proof fn lemma_same_ids_permute(priorities: Seq<AssetId>, list: Seq<AssetId>)
    requires
        list.no_duplicates(),
        priorities.no_duplicates(),
        priorities.len() == list.len(),
        forall|i: int| 0 <= i < priorities.len() ==> list.contains(#[trigger] priorities[i]),
    ensures
        is_permutation(priorities, list),
{
    broadcast use {to_multiset_contains, seq_to_set_is_finite};

    priorities.unique_seq_to_set();
    list.unique_seq_to_set();
    assert(priorities.to_set().subset_of(list.to_set())) by {
        assert forall|x: AssetId| priorities.to_set().contains(x) implies list.to_set().contains(
            x,
        ) by {
            assert(priorities.contains(x));
            let i = choose|i: int| 0 <= i < priorities.len() && priorities[i] == x;
            assert(list.contains(priorities[i]));
        }
    }
    lemma_subset_equality(priorities.to_set(), list.to_set());
    list.lemma_multiset_has_no_duplicates();
    priorities.lemma_multiset_has_no_duplicates();
    assert forall|x: AssetId|
        priorities.to_multiset().count(x) == list.to_multiset().count(x) by {
        assert(priorities.to_set().contains(x) == list.to_set().contains(x));
        assert(priorities.contains(x) == list.contains(x));
        if priorities.contains(x) {
            assert(priorities.to_multiset().contains(x));
            assert(list.to_multiset().contains(x));
        }
    }
    assert(priorities.to_multiset() =~= list.to_multiset());
}

/// Whether `list` holds `asset`.
pub fn contains(list: &Vec<AssetId>, asset: AssetId) -> (found: bool)
    ensures
        found == list@.contains(asset),
{
    position(list, asset).is_some()
}

/// The index of the first occurrence of `asset` in `list`.
pub fn position(list: &Vec<AssetId>, asset: AssetId) -> (found: Option<usize>)
    ensures
        match found {
            Some(i) => list@.index_of_first(asset) == Some(i as int) && i < list.len(),
            None => list@.index_of_first(asset) is None,
        },
        found is Some <==> list@.contains(asset),
{
    let mut i: usize = 0;
    while i < list.len()
        invariant
            i <= list.len(),
            forall|j: int| 0 <= j < i ==> list[j] != asset,
        decreases list.len() - i,
    {
        if list[i] == asset {
            proof {
                lemma_first_index(list@, asset, i as int);
            }
            return Some(i);
        }
        i = i + 1;
    }
    proof {
        lemma_no_index(list@, asset);
    }
    None
}

/// Whether no id stands twice in `list`.
pub fn has_no_duplicates(list: &Vec<AssetId>) -> (distinct: bool)
    ensures
        distinct == list@.no_duplicates(),
{
    let mut i: usize = 0;
    while i < list.len()
        invariant
            i <= list.len(),
            forall|a: int, b: int|
                0 <= a < i && 0 <= b < list.len() && a != b ==> list[a] != list[b],
        decreases list.len() - i,
    {
        let mut j: usize = i + 1;
        while j < list.len()
            invariant
                i < j <= list.len(),
                forall|b: int| i < b < j ==> list[i as int] != list[b],
            decreases list.len() - j,
        {
            if list[i] == list[j] {
                return false;
            }
            j = j + 1;
        }
        i = i + 1;
    }
    true
}

/// Whether `priorities` is a permutation of `list`, a list without
/// duplicates.
pub fn permutes(priorities: &Vec<AssetId>, list: &Vec<AssetId>) -> (same: bool)
    requires
        list@.no_duplicates(),
    ensures
        same == is_permutation(priorities@, list@),
{
    proof {
        if is_permutation(priorities@, list@) {
            lemma_permutation(priorities@, list@);
        }
    }
    if priorities.len() != list.len() {
        return false;
    }
    let mut i: usize = 0;
    while i < priorities.len()
        invariant
            i <= priorities.len(),
            forall|j: int| 0 <= j < i ==> list@.contains(#[trigger] priorities[j]),
            is_permutation(priorities@, list@) ==> forall|x: AssetId| #[trigger]
                priorities@.contains(x) <==> list@.contains(x),
        decreases priorities.len() - i,
    {
        if !contains(list, priorities[i]) {
            assert(priorities@.contains(priorities[i as int]));
            return false;
        }
        i = i + 1;
    }
    if !has_no_duplicates(priorities) {
        return false;
    }
    proof {
        lemma_same_ids_permute(priorities@, list@);
    }
    true
}

} // verus!
