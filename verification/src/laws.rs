//! What holds of the collector's operations taken together.
//!
//! Each statement is over the functions of [`crate::model`], which are what
//! the methods of [`crate::ErrorCollector`] promise in their contracts.

use vstd::prelude::*;
use syn::Error;
use crate::diagnostic::messages;
use crate::model::{combined, replaced, report, seeded, taken, thrown};

verus! {

/// Combining extends the report at its end: whatever would have been
/// reported before is still reported, in the same order, and the messages
/// of the new diagnostic follow.
pub proof fn lemma_combine_extends_report(state: Option<Error>, error: Error, next: Option<Error>)
    requires
        combined(state, error, next),
    ensures
        report(next) == report(state) + messages(error),
{
    if state is None {
        assert(report(next) =~= report(state) + messages(error));
    }
}

/// Order is preserved: a collector created around `first` into which
/// `second` is combined finishes in failure, and the diagnostic of that
/// failure carries every message of `first`, then every message of
/// `second`, each group in its own order.
pub proof fn lemma_combine_preserves_order(first: Error, second: Error, next: Option<Error>)
    requires
        combined(seeded(first), second, next),
    ensures
        thrown(next) is Err,
        messages(thrown(next)->Err_0) == messages(first) + messages(second),
        forall|i: int|
            0 <= i < messages(first).len() ==> #[trigger] messages(thrown(next)->Err_0)[i]
                == messages(first)[i],
        forall|j: int|
            0 <= j < messages(second).len() ==> messages(thrown(next)->Err_0)[messages(
                first,
            ).len() + j] == #[trigger] messages(second)[j],
{
}

/// Replacing does not merge: from a collector created around `first`,
/// replacing by `second` hands back `first` itself, and the collector then
/// finishes in failure with `second` itself, which carries nothing of
/// `first`.
pub proof fn lemma_replace_does_not_merge(first: Error, second: Error)
    ensures
        replaced(seeded(first), second).0 == Some(first),
        thrown(replaced(seeded(first), second).1) == Err::<(), Error>(second),
{
}

/// Taking empties completely: from a collector created around `error`,
/// taking hands out `error` itself, the collector then finishes in success,
/// and taking again hands out nothing and changes nothing.
pub proof fn lemma_take_empties(error: Error)
    ensures
        taken(seeded(error)).0 == Some(error),
        thrown(taken(seeded(error)).1) is Ok,
        taken(taken(seeded(error)).1) == (None::<Error>, None::<Error>),
{
}

/// An empty collector finishes in success and reports nothing.
pub proof fn lemma_empty_succeeds()
    ensures
        thrown(None) == Ok::<(), Error>(()),
        report(None) == Seq::<Seq<char>>::empty(),
{
}

/// Combining into an empty collector is creating one around the diagnostic:
/// it is stored as it came, with nothing merged into it.
pub proof fn lemma_combine_on_empty_seeds(error: Error, next: Option<Error>)
    requires
        combined(None, error, next),
    ensures
        next == seeded(error),
        thrown(next) == Err::<(), Error>(error),
{
}

} // verus!
