//! Reading every item of a sequence, or none.

use vstd::prelude::*;

verus! {

/// What `read` makes of each item, in order; `None` where it makes nothing
/// of one of them.
pub open spec fn read_each<A, B>(items: Seq<A>, read: spec_fn(A) -> Option<B>) -> Option<Seq<B>>
    decreases items.len(),
{
    if items.len() == 0 {
        Some(Seq::empty())
    } else {
        match (read_each(items.drop_last(), read), read(items.last())) {
            (Some(front), Some(item)) => Some(front.push(item)),
            _ => None,
        }
    }
}

/// Reading one item more: the items read so far, and the next one.
pub proof fn lemma_read_each_step<A, B>(items: Seq<A>, read: spec_fn(A) -> Option<B>, i: int)
    requires
        0 <= i < items.len(),
    ensures
        read_each(items.take(i + 1), read) == match (
            read_each(items.take(i), read),
            read(items[i]),
        ) {
            (Some(front), Some(item)) => Some(front.push(item)),
            _ => None,
        },
{
    let longer = items.take(i + 1);
    assert(longer.drop_last() =~= items.take(i));
    assert(longer.last() == items[i]);
}

/// Where the first `k` items cannot all be read, neither can all of them.
pub proof fn lemma_read_each_prefix<A, B>(items: Seq<A>, read: spec_fn(A) -> Option<B>, k: int)
    requires
        0 <= k <= items.len(),
        read_each(items.take(k), read).is_none(),
    ensures
        read_each(items, read).is_none(),
    decreases items.len(),
{
    if k < items.len() {
        assert(items.drop_last().take(k) =~= items.take(k));
        lemma_read_each_prefix(items.drop_last(), read, k);
    } else {
        assert(items.take(k) =~= items);
    }
}

/// As many items come out as went in, each read from the one in its place.
pub proof fn lemma_read_each_items<A, B>(items: Seq<A>, read: spec_fn(A) -> Option<B>)
    ensures
        read_each(items, read) matches Some(out) ==> {
            &&& out.len() == items.len()
            &&& forall|i: int| 0 <= i < items.len() ==> read(items[i]) == Some(#[trigger] out[i])
        },
    decreases items.len(),
{
    if items.len() > 0 {
        lemma_read_each_items(items.drop_last(), read);
    }
}

} // verus!
