//! An accumulator for the diagnostics found while expanding one syntactic
//! construct, so that all of them can be reported together instead of only
//! the first.

use vstd::prelude::*;
use syn::Error;

pub mod diagnostic;
pub mod laws;
pub mod model;

use crate::model::{combined, replaced, seeded, taken, thrown};

verus! {

/// Holds at most one diagnostic. Several errors are represented by merging
/// them into that one value, never by holding several values.
pub struct ErrorCollector(Option<Error>);

impl View for ErrorCollector {
    type V = Option<Error>;

    /// The diagnostic held, if any.
    closed spec fn view(&self) -> Option<Error> {
        self.0
    }
}

impl Default for ErrorCollector {
    /// An empty collector.
    fn default() -> (collector: Self)
        ensures
            collector@ is None,
    {
        ErrorCollector(None)
    }
}

impl ErrorCollector {
    /// A collector that holds `error`.
    pub fn new(error: Error) -> (collector: Self)
        ensures
            collector@ == seeded(error),
    {
        ErrorCollector(Some(error))
    }

    /// The diagnostic held, if any, for reading.
    pub fn error(&self) -> (held: Option<&Error>)
        ensures
            match self@ {
                None => held is None,
                Some(present) => held == Some(&present),
            },
    {
        self.0.as_ref()
    }

    /// The diagnostic held, if any, for changing in place. An empty collector
    /// stays empty; an occupied one ends up holding whatever the caller
    /// leaves behind the reference.
    pub fn error_mut(&mut self) -> (held: Option<&mut Error>)
        ensures
            match old(self)@ {
                None => held is None && final(self)@ is None,
                Some(before) => held is Some && *held->0 == before
                    && final(self)@ == Some(*final(held->0)),
            },
    {
        self.0.as_mut()
    }

    /// Hands out the diagnostic held, if any, and leaves the collector empty.
    pub fn take(&mut self) -> (held: Option<Error>)
        ensures
            (held, final(self)@) == taken(old(self)@),
    {
        self.0.take()
    }

    /// Stores `error` in place of the diagnostic held, if any, which is
    /// handed back untouched. Nothing is merged.
    pub fn replace(&mut self, error: Error) -> (previous: Option<Error>)
        ensures
            (previous, final(self)@) == replaced(old(self)@, error),
    {
        let previous = self.0.take();
        self.0 = Some(error);
        previous
    }

    /// Stores `error` if the collector is empty; otherwise merges it behind
    /// the diagnostic that is already held, so that messages keep the order
    /// in which they were met.
    pub fn combine(&mut self, error: Error)
        ensures
            combined(old(self)@, error, final(self)@),
    {
        match self.0 {
            None => self.0 = Some(error),
            Some(ref mut prev) => prev.combine(error),
        }
    }

    /// Consumes the collector: success if it is empty, else failure with the
    /// diagnostic held.
    pub fn try_throw(self) -> (outcome: Result<(), Error>)
        ensures
            outcome == thrown(self@),
    {
        match self.0 {
            None => Ok(()),
            Some(err) => Err(err),
        }
    }
}

} // verus!
