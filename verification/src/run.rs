//! A whole run, from two paths.

use crate::db;
use crate::destination::{Destination, Entry};
use crate::discovery::all_user_tables;
use crate::error::MigrateError;
use crate::pipeline::{migrate, run_done, run_stopped, TableSummary};
use crate::progress::{Event, Reporter};
use vstd::prelude::*;

verus! {

/// Source and destination must be two paths.
pub fn check_paths(input: &str, output: &str) -> (outcome: Result<(), MigrateError>)
    ensures
        input@ == output@ ==> outcome == Err::<(), MigrateError>(MigrateError::SamePath),
        input@ != output@ ==> outcome is Ok,
{
    if input.to_owned() == output.to_owned() {
        Err(MigrateError::SamePath)
    } else {
        Ok(())
    }
}

/// There must be nothing yet where the destination is to be created;
/// `occupied` says whether there is.
pub fn check_destination(occupied: bool) -> (outcome: Result<(), MigrateError>)
    ensures
        occupied ==> outcome == Err::<(), MigrateError>(MigrateError::DestinationExists),
        !occupied ==> outcome is Ok,
{
    if occupied {
        Err(MigrateError::DestinationExists)
    } else {
        Ok(())
    }
}

/// What the engine's answer to opening the source means: the connection
/// where there is one, else a [`MigrateError::SourceUnopenable`].
pub fn source_opened(answer: Result<sqlite::Connection, sqlite::Error>) -> (outcome: Result<
    sqlite::Connection,
    MigrateError,
>)
    ensures
        match answer {
            Ok(connection) => outcome == Ok::<sqlite::Connection, MigrateError>(connection),
            Err(_) => outcome matches Err(error) && error is SourceUnopenable,
        },
{
    match answer {
        Ok(connection) => Ok(connection),
        Err(error) => Err(MigrateError::SourceUnopenable { detail: db::message(&error) }),
    }
}

/// What the engine's answer to opening the destination means: the connection
/// where there is one, else a [`MigrateError::DestinationUncreatable`].
pub fn destination_opened(answer: Result<sqlite::Connection, sqlite::Error>) -> (outcome: Result<
    sqlite::Connection,
    MigrateError,
>)
    ensures
        match answer {
            Ok(connection) => outcome == Ok::<sqlite::Connection, MigrateError>(connection),
            Err(_) => outcome matches Err(error) && error is DestinationUncreatable,
        },
{
    match answer {
        Ok(connection) => Ok(connection),
        Err(error) => Err(MigrateError::DestinationUncreatable { detail: db::message(&error) }),
    }
}

/// How a run ended, with what the destination accepted during it.
pub struct RunReport {
    /// The accounts of the migrated tables, or the failure that ended the run.
    pub outcome: Result<Vec<TableSummary>, MigrateError>,
    /// What the destination accepted, oldest first.
    pub accepted: Ghost<Seq<Entry>>,
}

/// The failure `error` comes before anything is written: it is a failure of
/// the two paths, of opening either database, or of listing the tables.
pub open spec fn before_any_write(error: MigrateError) -> bool {
    ||| error is SamePath
    ||| error is SourceUnopenable
    ||| error is DestinationExists
    ||| error is DestinationUncreatable
    ||| error is Discovery
}

/// Migrates the database at `input` into a new database at `output`, and
/// tells `reporter` of each step as it begins.
///
/// The steps, each of which ends the run where it fails: the two paths must
/// differ ([`check_paths`], before any file is touched); the source must be
/// there and open ([`source_opened`]); there must be nothing at `output`
/// ([`check_destination`], before the destination is opened); the
/// destination must open ([`destination_opened`]); then every user table is
/// migrated as [`migrate`] does.
///
/// A run that succeeds has written the listed tables and their rows, and
/// nothing else. A run that fails before the tables are listed has written
/// nothing; one that fails later has written the tables before the failing
/// one in full, and of the failing one what came before the failure.
pub fn run<R: Reporter>(input: &str, output: &str, reporter: &mut R) -> (report: RunReport)
    ensures
        input@ == output@ <==> report.outcome matches Err(MigrateError::SamePath),
        match report.outcome {
            Ok(summaries) => exists|tables: Seq<String>|
                all_user_tables(tables) && #[trigger] run_done(
                    Seq::empty(),
                    report.accepted@,
                    tables,
                    summaries@,
                ),
            Err(error) => if before_any_write(error) {
                report.accepted@ == Seq::<Entry>::empty()
            } else {
                exists|tables: Seq<String>, done: Seq<TableSummary>|
                    all_user_tables(tables) && #[trigger] run_stopped(
                        Seq::empty(),
                        report.accepted@,
                        tables,
                        done,
                        error,
                    )
            },
        },
{
    match check_paths(input, output) {
        Ok(()) => {},
        Err(error) => {
            return RunReport { outcome: Err(error), accepted: Ghost(Seq::empty()) };
        },
    }
    reporter.report(Event::OpeningSource { path: input });
    let source = match source_opened(db::open_existing(input)) {
        Ok(source) => source,
        Err(error) => {
            return RunReport { outcome: Err(error), accepted: Ghost(Seq::empty()) };
        },
    };
    reporter.report(Event::SourceOpened);
    reporter.report(Event::CreatingDestination { path: output });
    match check_destination(db::path_exists(output)) {
        Ok(()) => {},
        Err(error) => {
            return RunReport { outcome: Err(error), accepted: Ghost(Seq::empty()) };
        },
    }
    let connection = match destination_opened(db::open(output)) {
        Ok(connection) => connection,
        Err(error) => {
            return RunReport { outcome: Err(error), accepted: Ghost(Seq::empty()) };
        },
    };
    let mut destination = Destination::new(&connection);
    let ghost before = destination.journal();
    let outcome = migrate(&source, &mut destination, reporter);
    let report = RunReport { outcome, accepted: Ghost(destination.journal()) };
    proof {
        let after = report.accepted@;
        if report.outcome is Ok {
            let summaries = report.outcome->Ok_0;
            let tables = choose|tables: Seq<String>|
                all_user_tables(tables) && #[trigger] run_done(before, after, tables, summaries@);
            assert(run_done(Seq::empty(), after, tables, summaries@));
        } else if !(report.outcome->Err_0 is Discovery) {
            let error = report.outcome->Err_0;
            let (tables, done) = choose|tables: Seq<String>, done: Seq<TableSummary>|
                all_user_tables(tables) && #[trigger] run_stopped(
                    before,
                    after,
                    tables,
                    done,
                    error,
                );
            assert(run_stopped(Seq::empty(), after, tables, done, error));
        }
    }
    report
}

} // verus!
