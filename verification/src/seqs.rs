//! Helpers on sequences and lists: maps that stop at the first item that
//! fails, views of lists, and moves of their items.

use vstd::prelude::*;

verus! {

/// The results of `f` on the items in order, or the error of the first item
/// on which `f` fails.
pub open spec fn try_map<A, B, E>(items: Seq<A>, f: spec_fn(A) -> Result<B, E>) -> Result<
    Seq<B>,
    E,
>
    decreases items.len(),
{
    if items.len() == 0 {
        Ok(Seq::empty())
    } else {
        match try_map(items.drop_last(), f) {
            Ok(before) => match f(items.last()) {
                Ok(last) => Ok(before.push(last)),
                Err(e) => Err(e),
            },
            Err(e) => Err(e),
        }
    }
}

/// The map of one more item, from the map of the items before it.
pub proof fn lemma_try_map_step<A, B, E>(items: Seq<A>, f: spec_fn(A) -> Result<B, E>, n: int)
    requires
        0 <= n < items.len(),
    ensures
        try_map(items.subrange(0, n + 1), f) == match try_map(items.subrange(0, n), f) {
            Ok(before) => match f(items[n]) {
                Ok(last) => Ok(before.push(last)),
                Err(e) => Err(e),
            },
            Err(e) => Err::<Seq<B>, E>(e),
        },
{
    let longer = items.subrange(0, n + 1);
    assert(longer.drop_last() =~= items.subrange(0, n));
    assert(longer.last() == items[n]);
}

/// Where the map fails on the start of a sequence, it fails in the same way
/// on the whole.
pub proof fn lemma_try_map_prefix<A, B, E>(items: Seq<A>, f: spec_fn(A) -> Result<B, E>, n: int)
    requires
        0 <= n <= items.len(),
        try_map(items.subrange(0, n), f) is Err,
    ensures
        try_map(items, f) == try_map(items.subrange(0, n), f),
    decreases items.len(),
{
    if n < items.len() {
        assert(items.drop_last().subrange(0, n) =~= items.subrange(0, n));
        lemma_try_map_prefix(items.drop_last(), f, n);
    } else {
        assert(items.subrange(0, n) =~= items);
    }
}

/// The views of the items of a sequence.
pub open spec fn views<T: View>(items: Seq<T>) -> Seq<T::V> {
    Seq::new(items.len(), |i: int| items[i]@)
}

/// The views of a list with one more item.
pub proof fn lemma_views_push<T: View>(items: Seq<T>, item: T)
    ensures
        views(items.push(item)) == views(items).push(item@),
{
    assert(views(items.push(item)) =~= views(items).push(item@));
}

/// The empty list has no views.
pub proof fn lemma_views_empty<T: View>()
    ensures
        views(Seq::<T>::empty()) == Seq::<T::V>::empty(),
{
    assert(views(Seq::<T>::empty()) =~= Seq::<T::V>::empty());
}

/// Appends bytes to a list.
pub fn append_bytes(out: &mut Vec<u8>, more: &[u8])
    ensures
        final(out)@ == old(out)@ + more@,
{
    let mut i: usize = 0;
    while i < more.len()
        invariant
            i <= more.len(),
            out@ == old(out)@ + more@.subrange(0, i as int),
        decreases more.len() - i,
    {
        out.push(more[i]);
        assert(more@.subrange(0, i + 1) =~= more@.subrange(0, i as int).push(more@[i as int]));
        i = i + 1;
    }
    assert(more@.subrange(0, more.len() as int) =~= more@);
}

/// Moves the items of a list into a list in the opposite order.
pub fn reversed<T>(items: Vec<T>) -> (back: Vec<T>)
    ensures
        back@ == items@.reverse(),
{
    let ghost all = items@;
    let mut items = items;
    let mut back: Vec<T> = Vec::new();
    while items.len() > 0
        invariant
            all == items@ + back@.reverse(),
        decreases items.len(),
    {
        let ghost before = items@;
        let last = items.pop().unwrap();
        back.push(last);
        assert(before =~= items@.push(last));
        assert(items@.push(last) + (back@.drop_last()).reverse() =~= items@ + back@.reverse());
    }
    assert(all =~= back@.reverse());
    assert(back@.reverse().reverse() =~= back@);
    back
}

} // verus!
