//! Telling the caller how far the run has come.

use vstd::prelude::*;

verus! {

/// A step of the run that is about to begin, or has just ended.
#[derive(Debug)]
pub enum Event<'a> {
    /// The source at `path` is about to be opened.
    OpeningSource { path: &'a str },
    /// The source is open.
    SourceOpened,
    /// The destination at `path` is about to be created.
    CreatingDestination { path: &'a str },
    /// The catalog of the source is about to be read.
    ListingTables,
    /// These are the tables that will be migrated, in this order.
    TablesFound { tables: &'a Vec<String> },
    /// The table `table` is about to be migrated.
    TableStarted { table: &'a str },
    /// The row with the key `id` is about to be unwrapped and written.
    RowStarted { id: &'a str },
}

/// Someone who wants to hear of the steps of a run as they come. What is
/// done with an event is up to the reporter: the run neither waits for
/// anything nor learns anything from it.
pub trait Reporter {
    /// Takes note of `event`.
    fn report(&mut self, event: Event<'_>);
}

/// The reporter that takes no note of anything.
pub struct Silent;

impl Reporter for Silent {
    fn report(&mut self, event: Event<'_>) {
    }
}

} // verus!
