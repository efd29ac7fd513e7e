//! The collector as a mathematical object.
//!
//! A collector's state is the diagnostic it holds, if any: an
//! `Option<Error>`. Each operation is described here as a function or a
//! relation on that state; the executable methods promise exactly these.

use vstd::prelude::*;
use syn::Error;
use crate::diagnostic::messages;

verus! {

/// The state of a collector created around `error`.
pub open spec fn seeded(error: Error) -> Option<Error> {
    Some(error)
}

/// Taking from `state`: what is handed to the caller, then the state left
/// behind. Everything held is handed out and nothing stays.
pub open spec fn taken(state: Option<Error>) -> (Option<Error>, Option<Error>) {
    (state, None)
}

/// Replacing the content of `state` by `error`: what is handed back to the
/// caller, then the state left behind. The old content is handed back as it
/// was and the new one is stored as it came; the two never meet.
pub open spec fn replaced(state: Option<Error>, error: Error) -> (Option<Error>, Option<Error>) {
    (state, Some(error))
}

/// Whether `next` is a state that combining `error` into `state` may leave.
///
/// Into an empty state the diagnostic is stored as it came. Otherwise the
/// state stays occupied, and the diagnostic it then holds carries the
/// messages held before, followed by those of `error`.
pub open spec fn combined(state: Option<Error>, error: Error, next: Option<Error>) -> bool {
    match state {
        None => next == Some(error),
        Some(held) => next is Some && messages(next->0) == messages(held) + messages(error),
    }
}

/// The outcome of finishing in `state`: success if nothing is held, else
/// failure with the held diagnostic.
pub open spec fn thrown(state: Option<Error>) -> Result<(), Error> {
    match state {
        None => Ok(()),
        Some(held) => Err(held),
    }
}

/// The message texts that finishing in `state` would report, in order;
/// none for the empty state.
pub open spec fn report(state: Option<Error>) -> Seq<Seq<char>> {
    match state {
        None => Seq::empty(),
        Some(held) => messages(held),
    }
}

} // verus!
