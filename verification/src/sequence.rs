//! Sequences in specifications: the views of the elements of a sequence,
//! mapping a step that may fail over a sequence, and keeping the first of each
//! kind.

use vstd::prelude::*;

verus! {

/// The views of the elements, in order.
pub open spec fn views<T: View>(items: Seq<T>) -> Seq<T::V> {
    items.map_values(|item: T| item@)
}

/// The views of a sequence grow with it.
pub proof fn lemma_views_push<T: View>(items: Seq<T>, item: T)
    ensures
        views(items.push(item)) == views(items).push(item@),
{
    assert(views(items.push(item)) =~= views(items).push(item@));
}

/// The views of two sequences, one after the other.
pub proof fn lemma_views_add<T: View>(a: Seq<T>, b: Seq<T>)
    ensures
        views(a + b) == views(a) + views(b),
{
    assert(views(a + b) =~= views(a) + views(b));
}

/// The view of an optional value.
pub open spec fn option_view<T: View>(value: Option<T>) -> Option<T::V> {
    match value {
        Some(value) => Some(value@),
        None => None,
    }
}

/// Named values as plain values: each name with the view of its value.
pub open spec fn named<T: View>(entries: Seq<(String, T)>) -> Seq<(Seq<char>, T::V)> {
    entries.map_values(|entry: (String, T)| (entry.0@, entry.1@))
}

/// The names of named values, in order.
pub open spec fn names_of<V>(entries: Seq<(Seq<char>, V)>) -> Seq<Seq<char>> {
    entries.map_values(|entry: (Seq<char>, V)| entry.0)
}

/// The results of `step` on the first `n` items, or the first error among them.
pub open spec fn try_map_upto<A, B, E>(
    items: Seq<A>,
    step: spec_fn(A) -> Result<B, E>,
    n: int,
) -> Result<Seq<B>, E>
    decreases n,
{
    if n <= 0 {
        Ok(Seq::empty())
    } else {
        match try_map_upto(items, step, n - 1) {
            Err(e) => Err(e),
            Ok(done) => match step(items[n - 1]) {
                Err(e) => Err(e),
                Ok(one) => Ok(done.push(one)),
            },
        }
    }
}

/// The results of `step` on every item, or the first error.
pub open spec fn try_map<A, B, E>(items: Seq<A>, step: spec_fn(A) -> Result<B, E>) -> Result<
    Seq<B>,
    E,
> {
    try_map_upto(items, step, items.len() as int)
}

/// An error among the first items is the error of the whole.
pub proof fn lemma_try_map_error<A, B, E>(
    items: Seq<A>,
    step: spec_fn(A) -> Result<B, E>,
    i: int,
    n: int,
)
    requires
        i <= n,
        try_map_upto(items, step, i) is Err,
    ensures
        try_map_upto(items, step, n) == try_map_upto(items, step, i),
    decreases n - i,
{
    if i < n {
        lemma_try_map_error(items, step, i, n - 1);
    }
}

/// Where mapping succeeds it keeps the order: there is one result for each
/// item, and each is what `step` gives on the item at its place.
pub proof fn lemma_try_map_ok<A, B, E>(items: Seq<A>, step: spec_fn(A) -> Result<B, E>, n: int)
    requires
        0 <= n <= items.len(),
        try_map_upto(items, step, n) is Ok,
    ensures
        try_map_upto(items, step, n)->Ok_0.len() == n,
        forall|i: int|
            0 <= i < n ==> step(#[trigger] items[i]) == Ok::<B, E>(
                try_map_upto(items, step, n)->Ok_0[i],
            ),
    decreases n,
{
    if n > 0 {
        lemma_try_map_ok(items, step, n - 1);
    }
}

/// The results of `step` on the first `n` items, one after the other, or the
/// first error among them.
pub open spec fn try_flat_map_upto<A, B, E>(
    items: Seq<A>,
    step: spec_fn(A) -> Result<Seq<B>, E>,
    n: int,
) -> Result<Seq<B>, E>
    decreases n,
{
    if n <= 0 {
        Ok(Seq::empty())
    } else {
        match try_flat_map_upto(items, step, n - 1) {
            Err(e) => Err(e),
            Ok(done) => match step(items[n - 1]) {
                Err(e) => Err(e),
                Ok(more) => Ok(done + more),
            },
        }
    }
}

/// The results of `step` on every item, one after the other, or the first
/// error.
pub open spec fn try_flat_map<A, B, E>(
    items: Seq<A>,
    step: spec_fn(A) -> Result<Seq<B>, E>,
) -> Result<Seq<B>, E> {
    try_flat_map_upto(items, step, items.len() as int)
}

/// An error among the first items is the error of the whole.
pub proof fn lemma_try_flat_map_error<A, B, E>(
    items: Seq<A>,
    step: spec_fn(A) -> Result<Seq<B>, E>,
    i: int,
    n: int,
)
    requires
        i <= n,
        try_flat_map_upto(items, step, i) is Err,
    ensures
        try_flat_map_upto(items, step, n) == try_flat_map_upto(items, step, i),
    decreases n - i,
{
    if i < n {
        lemma_try_flat_map_error(items, step, i, n - 1);
    }
}

/// The keys of the items, in order.
pub open spec fn keys_of<A, K>(items: Seq<A>, key: spec_fn(A) -> K) -> Seq<K> {
    items.map_values(key)
}

/// The items without those whose key an earlier item has: the first of each
/// key stays, in the order of the sequence.
pub open spec fn first_of_each<A, K>(items: Seq<A>, key: spec_fn(A) -> K) -> Seq<A>
    decreases items.len(),
{
    if items.len() == 0 {
        items
    } else {
        let before = first_of_each(items.drop_last(), key);
        if keys_of(before, key).contains(key(items.last())) {
            before
        } else {
            before.push(items.last())
        }
    }
}

/// A key occurs among the kept items exactly if it occurs in the sequence.
pub proof fn lemma_first_of_each_keeps_keys<A, K>(items: Seq<A>, key: spec_fn(A) -> K, k: K)
    ensures
        keys_of(items, key).contains(k) <==> keys_of(first_of_each(items, key), key).contains(k),
    decreases items.len(),
{
    let kept = first_of_each(items, key);
    if items.len() > 0 {
        let rest = items.drop_last();
        let before = first_of_each(rest, key);
        lemma_first_of_each_keeps_keys(rest, key, k);
        if keys_of(items, key).contains(k) {
            let i = choose|i: int|
                0 <= i < keys_of(items, key).len() && keys_of(items, key)[i] == k;
            if i < items.len() - 1 {
                assert(keys_of(rest, key)[i] == k);
                assert(keys_of(before, key).contains(k));
                let j = choose|j: int|
                    0 <= j < keys_of(before, key).len() && keys_of(before, key)[j] == k;
                assert(keys_of(kept, key)[j] == k);
            } else {
                if !keys_of(before, key).contains(k) {
                    assert(keys_of(kept, key)[kept.len() - 1] == k);
                }
            }
        }
        if keys_of(kept, key).contains(k) {
            let j = choose|j: int| 0 <= j < keys_of(kept, key).len() && keys_of(kept, key)[j] == k;
            if j < before.len() {
                assert(keys_of(before, key)[j] == k);
                assert(keys_of(rest, key).contains(k));
                let i = choose|i: int|
                    0 <= i < keys_of(rest, key).len() && keys_of(rest, key)[i] == k;
                assert(keys_of(items, key)[i] == k);
            } else {
                assert(keys_of(items, key)[items.len() - 1] == k);
            }
        }
    }
}

/// The kept items are items of the sequence, and no two of them have one key.
pub proof fn lemma_first_of_each<A, K>(items: Seq<A>, key: spec_fn(A) -> K)
    ensures
        keys_of(first_of_each(items, key), key).no_duplicates(),
        forall|a: A| #[trigger] first_of_each(items, key).contains(a) ==> items.contains(a),
        first_of_each(items, key).len() <= items.len(),
    decreases items.len(),
{
    let kept = first_of_each(items, key);
    if items.len() > 0 {
        let rest = items.drop_last();
        let before = first_of_each(rest, key);
        lemma_first_of_each(rest, key);
        assert forall|a: A| kept.contains(a) implies items.contains(a) by {
            let j = choose|j: int| 0 <= j < kept.len() && kept[j] == a;
            if j < before.len() {
                assert(before[j] == a);
                assert(before.contains(a));
                let i = choose|i: int| 0 <= i < rest.len() && rest[i] == a;
                assert(items[i] == a);
            } else {
                assert(items[items.len() - 1] == a);
            }
        }
        assert forall|i: int, j: int|
            0 <= i < kept.len() && 0 <= j < kept.len() && i != j implies keys_of(kept, key)[i]
            != keys_of(kept, key)[j] by {
            if i < before.len() && j < before.len() {
                assert(keys_of(before, key)[i] != keys_of(before, key)[j]);
            } else if i < before.len() {
                assert(keys_of(before, key)[i] == keys_of(kept, key)[i]);
                assert(keys_of(before, key).contains(keys_of(kept, key)[i]));
            } else if j < before.len() {
                assert(keys_of(before, key)[j] == keys_of(kept, key)[j]);
                assert(keys_of(before, key).contains(keys_of(kept, key)[j]));
            }
        }
    }
}

} // verus!
