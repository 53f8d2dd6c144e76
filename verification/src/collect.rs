//! Mapping a fallible function over a sequence: the results in order, or the
//! first error.

use vstd::prelude::*;

verus! {

/// The results of `f` on each item of `items`, in order; the error of the
/// first item on which `f` fails, if there is one.
pub open spec fn collect<A, B, E>(items: Seq<A>, f: spec_fn(A) -> Result<B, E>) -> Result<Seq<B>, E>
    decreases items.len(),
{
    if items.len() == 0 {
        Ok(Seq::empty())
    } else {
        match collect(items.drop_last(), f) {
            Err(e) => Err(e),
            Ok(init) => match f(items.last()) {
                Err(e) => Err(e),
                Ok(b) => Ok(init.push(b)),
            },
        }
    }
}

/// One more item: the results so far and the item's own, or the first error.
pub proof fn lemma_collect_next<A, B, E>(items: Seq<A>, f: spec_fn(A) -> Result<B, E>, i: int)
    requires
        0 <= i < items.len(),
    ensures
        collect(items.take(i + 1), f) == match collect(items.take(i), f) {
            Err(e) => Err::<Seq<B>, E>(e),
            Ok(init) => match f(items[i]) {
                Err(e) => Err(e),
                Ok(b) => Ok(init.push(b)),
            },
        },
{
    assert(items.take(i + 1).drop_last() == items.take(i));
    assert(items.take(i + 1).last() == items[i]);
}

/// An error among the first `i` items is the error of the whole.
pub proof fn lemma_collect_error_stays<A, B, E>(
    items: Seq<A>,
    f: spec_fn(A) -> Result<B, E>,
    i: int,
)
    requires
        0 <= i <= items.len(),
        collect(items.take(i), f) is Err,
    ensures
        collect(items, f) == collect(items.take(i), f),
    decreases items.len() - i,
{
    if i == items.len() {
        assert(items.take(i) == items);
    } else {
        lemma_collect_next(items, f, i);
        lemma_collect_error_stays(items, f, i + 1);
    }
}

/// Without an error there are as many results as items, and each is the
/// result of the item at its place.
pub proof fn lemma_collect_ok<A, B, E>(items: Seq<A>, f: spec_fn(A) -> Result<B, E>)
    requires
        collect(items, f) is Ok,
    ensures
        collect(items, f)->Ok_0.len() == items.len(),
        forall|i: int| 0 <= i < items.len() ==> f(items[i]) == Ok::<B, E>(#[trigger] collect(items, f)->Ok_0[i]),
    decreases items.len(),
{
    if items.len() > 0 {
        lemma_collect_ok(items.drop_last(), f);
    }
}

} // verus!
