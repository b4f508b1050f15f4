//! Sets of URLs that keep the order in which their items came.
//!
//! The set is `indexmap::IndexSet<String>`. What it holds is the sequence
//! `set_items`; the functions here say how the set's own operations change
//! that sequence.

use vstd::prelude::*;
use indexmap::IndexSet;
use crate::chars::texts;
use crate::common::MAX_URL_COUNTS_PER_MESSAGE;

verus! {

#[verifier::external_type_specification]
#[verifier::external_body]
#[verifier::reject_recursive_types(T)]
#[verifier::reject_recursive_types(S)]
pub struct ExIndexSet<T, S>(IndexSet<T, S>);

/// The items of a set, in the order in which they were inserted.
pub uninterp spec fn set_items(set: IndexSet<String>) -> Seq<Seq<char>>;

/// `acc`, and `item` behind it unless `acc` holds it already.
pub open spec fn unique_push(acc: Seq<Seq<char>>, item: Seq<char>) -> Seq<Seq<char>> {
    if acc.contains(item) {
        acc
    } else {
        acc.push(item)
    }
}

/// `acc`, and behind it the items of `items` that are new, each where it
/// comes first.
pub open spec fn unique_extend(acc: Seq<Seq<char>>, items: Seq<Seq<char>>) -> Seq<Seq<char>>
    decreases items.len(),
{
    if items.len() == 0 {
        acc
    } else {
        unique_push(unique_extend(acc, items.drop_last()), items.last())
    }
}

/// The items of `items` without repetitions, each where it comes first.
pub open spec fn unique(items: Seq<Seq<char>>) -> Seq<Seq<char>> {
    unique_extend(Seq::empty(), items)
}

/// The candidates of a message: the first of `urls`, up to
/// `MAX_URL_COUNTS_PER_MESSAGE`; what comes after them is dropped.
pub open spec fn capped(urls: Seq<Seq<char>>) -> Seq<Seq<char>> {
    if urls.len() <= MAX_URL_COUNTS_PER_MESSAGE {
        urls
    } else {
        urls.take(MAX_URL_COUNTS_PER_MESSAGE as int)
    }
}

/// `IndexSet::new` makes a set without items.
#[verifier::external_body]
pub(crate) fn new_set() -> (set: IndexSet<String>)
    ensures
        set_items(set) == Seq::<Seq<char>>::empty(),
{
    IndexSet::new()
}

/// `IndexSet::insert` puts an item that the set does not hold behind the
/// others and returns `true`; it leaves the set as it is, with the order of
/// its items, and returns `false` where the set holds an equal item.
#[verifier::external_body]
pub(crate) fn set_insert(set: &mut IndexSet<String>, item: String) -> (fresh: bool)
    ensures
        fresh == !set_items(*old(set)).contains(item@),
        set_items(*final(set)) == unique_push(set_items(*old(set)), item@),
{
    set.insert(item)
}

/// `IndexSet::len` is the number of items.
#[verifier::external_body]
pub(crate) fn set_len(set: &IndexSet<String>) -> (n: usize)
    ensures
        n == set_items(*set).len(),
{
    set.len()
}

/// `IndexSet::get_index` returns the item at a place in the order of
/// insertion, counted from zero, and `None` behind the last item.
#[verifier::external_body]
pub(crate) fn set_get(set: &IndexSet<String>, index: usize) -> (item: Option<&String>)
    ensures
        index < set_items(*set).len() ==> item is Some && item->0@ == set_items(*set)[index as int],
        index >= set_items(*set).len() ==> item is None,
{
    set.get_index(index)
}

/// Extending in two steps is extending by both parts at once.
pub proof fn lemma_unique_extend_concat(
    acc: Seq<Seq<char>>,
    a: Seq<Seq<char>>,
    b: Seq<Seq<char>>,
)
    ensures
        unique_extend(acc, a + b) == unique_extend(unique_extend(acc, a), b),
    decreases b.len(),
{
    if b.len() == 0 {
        assert(a + b =~= a);
    } else {
        lemma_unique_extend_concat(acc, a, b.drop_last());
        assert((a + b).drop_last() =~= a + b.drop_last());
        assert((a + b).last() == b.last());
    }
}

/// `acc`, and `item` behind it if `acc` is not full and does not hold it.
pub open spec fn capped_push(acc: Seq<Seq<char>>, item: Seq<char>) -> Seq<Seq<char>> {
    if acc.len() < MAX_URL_COUNTS_PER_MESSAGE {
        unique_push(acc, item)
    } else {
        acc
    }
}

/// `acc`, and behind it the items of `items` that are new, each where it
/// comes first, as far as there is room.
pub open spec fn capped_extend(acc: Seq<Seq<char>>, items: Seq<Seq<char>>) -> Seq<Seq<char>>
    decreases items.len(),
{
    if items.len() == 0 {
        acc
    } else {
        capped_push(capped_extend(acc, items.drop_last()), items.last())
    }
}

/// Taking an item if there is room is capping after the item was taken.
pub proof fn lemma_capped_push(all: Seq<Seq<char>>, item: Seq<char>)
    ensures
        capped_push(capped(all), item) == capped(unique_push(all, item)),
{
    if all.len() >= MAX_URL_COUNTS_PER_MESSAGE && !all.contains(item) {
        assert(all.push(item).take(MAX_URL_COUNTS_PER_MESSAGE as int) =~= all.take(
            MAX_URL_COUNTS_PER_MESSAGE as int,
        ));
    }
}

/// Filling a capped set is capping the set that was filled without a cap.
pub proof fn lemma_capped_extend(all: Seq<Seq<char>>, items: Seq<Seq<char>>)
    ensures
        capped_extend(capped(all), items) == capped(unique_extend(all, items)),
    decreases items.len(),
{
    if items.len() > 0 {
        lemma_capped_extend(all, items.drop_last());
        lemma_capped_push(unique_extend(all, items.drop_last()), items.last());
    }
}

/// Inserts `item` into a set of candidates unless the set is full.
pub fn insert_capped(set: &mut IndexSet<String>, item: String)
    ensures
        set_items(*final(set)) == capped_push(set_items(*old(set)), item@),
{
    if set_len(set) < MAX_URL_COUNTS_PER_MESSAGE {
        set_insert(set, item);
    }
}

/// Inserts `items`, in their order, into a set of candidates as far as
/// there is room.
pub fn insert_all_capped(set: &mut IndexSet<String>, items: &Vec<String>)
    ensures
        set_items(*final(set)) == capped_extend(set_items(*old(set)), texts(items@)),
{
    let ghost new = texts(items@);
    let mut j: usize = 0;
    proof {
        assert(new.take(0) =~= Seq::<Seq<char>>::empty());
    }
    while j < items.len()
        invariant
            j <= items.len(),
            new == texts(items@),
            set_items(*set) == capped_extend(set_items(*old(set)), new.take(j as int)),
        decreases items.len() - j,
    {
        proof {
            assert(new.take(j as int + 1).drop_last() =~= new.take(j as int));
            assert(new.take(j as int + 1).last() == items@[j as int]@);
        }
        insert_capped(set, items[j].clone());
        j += 1;
    }
    proof {
        assert(new.take(items.len() as int) =~= new);
    }
}

} // verus!
