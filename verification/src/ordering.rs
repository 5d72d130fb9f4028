//! The stable sort that puts table rows in the order they are shown.

use vstd::prelude::*;

verus! {

/// A row type with the order its table shows rows in: a strict order, so that rows that
/// compare equal can keep the order they came in.
pub trait ShownBefore: Sized {
    /// Whether `self` is shown above `other`.
    spec fn before(self, other: Self) -> bool;

    proof fn lemma_before_asymmetric(a: Self, b: Self)
        ensures
            !(a.before(b) && b.before(a)),
    ;

    proof fn lemma_before_transitive(a: Self, b: Self, c: Self)
        requires
            a.before(b),
            b.before(c),
        ensures
            a.before(c),
    ;

    /// Whether `self` is shown above `other`.
    fn precedes(&self, other: &Self) -> (before: bool)
        ensures
            before == self.before(*other),
    ;
}

/// `item` put into `sorted` after every element it does not come before.
pub open spec fn insert_sorted<T: ShownBefore>(sorted: Seq<T>, item: T) -> Seq<T>
    decreases sorted.len(),
{
    if sorted.len() == 0 {
        seq![item]
    } else if item.before(sorted[0]) {
        seq![item] + sorted
    } else {
        seq![sorted[0]] + insert_sorted(sorted.drop_first(), item)
    }
}

/// `items` in the order they are shown, equal ones in the order they came in: what a
/// stable sort such as `slice::sort_by` gives.
pub open spec fn stable_sorted<T: ShownBefore>(items: Seq<T>) -> Seq<T>
    decreases items.len(),
{
    if items.len() == 0 {
        items
    } else {
        insert_sorted(stable_sorted(items.drop_last()), items.last())
    }
}

/// No element of `items` comes before an element above it.
pub open spec fn in_shown_order<T: ShownBefore>(items: Seq<T>) -> bool {
    forall|i: int, j: int|
        0 <= i < j < items.len() ==> !(#[trigger] items[j]).before(#[trigger] items[i])
}

/// Index of the first element of `sorted` that `item` comes before; the length when none.
spec fn insert_position<T: ShownBefore>(sorted: Seq<T>, item: T) -> int
    decreases sorted.len(),
{
    if sorted.len() == 0 || item.before(sorted[0]) {
        0
    } else {
        1 + insert_position(sorted.drop_first(), item)
    }
}

proof fn lemma_insert_position<T: ShownBefore>(sorted: Seq<T>, item: T)
    ensures
        0 <= insert_position(sorted, item) <= sorted.len(),
        forall|q: int|
            0 <= q < insert_position(sorted, item) ==> !item.before(#[trigger] sorted[q]),
        insert_position(sorted, item) < sorted.len() ==> item.before(
            sorted[insert_position(sorted, item)],
        ),
    decreases sorted.len(),
{
    if sorted.len() > 0 && !item.before(sorted[0]) {
        let rest = sorted.drop_first();
        lemma_insert_position(rest, item);
        assert forall|q: int| 0 <= q < insert_position(sorted, item) implies !item.before(
            #[trigger] sorted[q],
        ) by {
            if q > 0 {
                assert(sorted[q] == rest[q - 1]);
            }
        }
    }
}

/// Inserting at the first element that `item` comes before is what `insert_sorted` does.
proof fn lemma_insert_sorted_at<T: ShownBefore>(sorted: Seq<T>, item: T, p: int)
    requires
        0 <= p <= sorted.len(),
        forall|q: int| 0 <= q < p ==> !item.before(#[trigger] sorted[q]),
        p < sorted.len() ==> item.before(sorted[p]),
    ensures
        insert_sorted(sorted, item) == sorted.insert(p, item),
    decreases sorted.len(),
{
    if sorted.len() == 0 {
        assert(sorted.insert(p, item) =~= seq![item]);
    } else if p == 0 {
        assert(sorted.insert(p, item) =~= seq![item] + sorted);
    } else {
        let rest = sorted.drop_first();
        assert forall|q: int| 0 <= q < p - 1 implies !item.before(#[trigger] rest[q]) by {
            assert(rest[q] == sorted[q + 1]);
        }
        lemma_insert_sorted_at(rest, item, p - 1);
        assert(sorted.insert(p, item) =~= seq![sorted[0]] + rest.insert(p - 1, item));
    }
}

proof fn lemma_insert_sorted_keeps_order<T: ShownBefore>(sorted: Seq<T>, item: T)
    requires
        in_shown_order(sorted),
    ensures
        in_shown_order(insert_sorted(sorted, item)),
        insert_sorted(sorted, item).to_multiset() == sorted.to_multiset().insert(item),
{
    let p = insert_position(sorted, item);
    lemma_insert_position(sorted, item);
    lemma_insert_sorted_at(sorted, item, p);
    let out = sorted.insert(p, item);
    assert forall|i: int, j: int| 0 <= i < j < out.len() implies !(#[trigger] out[j]).before(
        #[trigger] out[i],
    ) by {
        if j < p {
            assert(out[i] == sorted[i] && out[j] == sorted[j]);
        } else if j == p {
            assert(out[j] == item && out[i] == sorted[i]);
        } else if i > p {
            assert(out[i] == sorted[i - 1] && out[j] == sorted[j - 1]);
        } else if i == p {
            assert(out[i] == item && out[j] == sorted[j - 1]);
            T::lemma_before_asymmetric(item, sorted[p]);
            if sorted[j - 1].before(item) && j - 1 > p {
                T::lemma_before_transitive(sorted[j - 1], item, sorted[p]);
            }
        } else {
            assert(out[i] == sorted[i] && out[j] == sorted[j - 1]);
        }
    }
    vstd::seq_lib::to_multiset_insert(sorted, p, item);
}

/// Sorted elements are in the order they are shown: none comes before one above it.
pub proof fn lemma_stable_sorted_in_order<T: ShownBefore>(items: Seq<T>)
    ensures
        in_shown_order(stable_sorted(items)),
    decreases items.len(),
{
    if items.len() > 0 {
        lemma_stable_sorted_in_order(items.drop_last());
        lemma_insert_sorted_keeps_order(stable_sorted(items.drop_last()), items.last());
    }
}

/// Sorting neither loses nor adds an element.
pub proof fn lemma_stable_sorted_permutation<T: ShownBefore>(items: Seq<T>)
    ensures
        stable_sorted(items).to_multiset() == items.to_multiset(),
        stable_sorted(items).len() == items.len(),
    decreases items.len(),
{
    if items.len() > 0 {
        lemma_stable_sorted_permutation(items.drop_last());
        lemma_stable_sorted_in_order(items.drop_last());
        lemma_insert_sorted_keeps_order(stable_sorted(items.drop_last()), items.last());
        vstd::seq_lib::to_multiset_build(items.drop_last(), items.last());
        assert(items.drop_last().push(items.last()) =~= items);
    }
    vstd::seq_lib::to_multiset_len(items);
    vstd::seq_lib::to_multiset_len(stable_sorted(items));
}

/// `items` in the order they are shown, equal ones keeping their order.
pub fn stable_sort<T: ShownBefore>(items: Vec<T>) -> (sorted: Vec<T>)
    ensures
        sorted@ == stable_sorted(items@),
{
    let ghost given = items@;
    let mut rest = items;
    let mut sorted: Vec<T> = Vec::new();
    let mut i: usize = 0;
    assert(given.len() == rest.len());
    while rest.len() > 0
        invariant
            i + rest@.len() == given.len(),
            given.len() <= usize::MAX,
            rest@ == given.skip(i as int),
            sorted@ == stable_sorted(given.take(i as int)),
        decreases rest@.len(),
    {
        let item = rest.remove(0);
        let mut p: usize = 0;
        while p < sorted.len() && !item.precedes(&sorted[p])
            invariant
                0 <= p <= sorted@.len(),
                forall|q: int| 0 <= q < p ==> !item.before(#[trigger] sorted@[q]),
            decreases sorted@.len() - p,
        {
            p += 1;
        }
        proof {
            lemma_insert_sorted_at(sorted@, item, p as int);
            let next = given.take(i + 1);
            assert(next.drop_last() =~= given.take(i as int));
            assert(next.last() == item);
            assert(rest@ =~= given.skip(i + 1));
        }
        sorted.insert(p, item);
        i += 1;
    }
    assert(given.take(i as int) =~= given);
    sorted
}

} // verus!
