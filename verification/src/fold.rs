//! Reading a list of options from left to right, stopping at the first error.
use vstd::prelude::*;
use crate::error::ErrorView;

verus! {

/// The state after `step` has taken the items one by one, starting from
/// `init`; or the error of the first item at which `step` failed.
pub open spec fn fold<S, T>(
    items: Seq<T>,
    init: S,
    step: spec_fn(S, T) -> Result<S, ErrorView>,
) -> Result<S, ErrorView>
    decreases items.len(),
{
    if items.len() == 0 {
        Ok(init)
    } else {
        match fold(items.drop_last(), init, step) {
            Ok(state) => step(state, items.last()),
            Err(error) => Err(error),
        }
    }
}

/// Reading one more item is one more step.
pub proof fn lemma_fold_next<S, T>(
    items: Seq<T>,
    init: S,
    step: spec_fn(S, T) -> Result<S, ErrorView>,
    i: int,
)
    requires
        0 <= i < items.len(),
    ensures
        fold(items.take(i + 1), init, step) == match fold(items.take(i), init, step) {
            Ok(state) => step(state, items[i]),
            Err(error) => Err(error),
        },
{
    assert(items.take(i + 1).drop_last() =~= items.take(i));
}

/// The first error is the result, whatever follows it.
pub proof fn lemma_fold_error<S, T>(
    items: Seq<T>,
    init: S,
    step: spec_fn(S, T) -> Result<S, ErrorView>,
    i: int,
)
    requires
        0 <= i <= items.len(),
        fold(items.take(i), init, step) is Err,
    ensures
        fold(items, init, step) == fold(items.take(i), init, step),
    decreases items.len() - i,
{
    if i < items.len() {
        lemma_fold_next(items, init, step, i);
        lemma_fold_error(items, init, step, i + 1);
    } else {
        assert(items.take(i) =~= items);
    }
}

/// Where the whole list was read without error, so was every prefix.
pub proof fn lemma_fold_prefix_ok<S, T>(
    items: Seq<T>,
    init: S,
    step: spec_fn(S, T) -> Result<S, ErrorView>,
    i: int,
)
    requires
        0 <= i <= items.len(),
        fold(items, init, step) is Ok,
    ensures
        fold(items.take(i), init, step) is Ok,
{
    if fold(items.take(i), init, step) is Err {
        lemma_fold_error(items, init, step, i);
    }
}

} // verus!
