//! Copying the tables: one destination table for each source table, one
//! destination row for each source row.

use crate::db;
use crate::destination::{
    extends, lemma_rows_written_concat, lemma_tables_created_concat, rows_written,
    tables_created, Destination, Entry,
};
use crate::discovery::{all_user_tables, get_tables, texts};
use crate::error::MigrateError;
use crate::json::{innermost, json_decode};
use crate::progress::{Event, Reporter};
use crate::rows::{
    all_json, normalized_rows, process_row, row_in, source_row, Answer, Progress, SourceRowView,
};
use crate::sql::select_rows_statement;
use vstd::prelude::*;

verus! {

/// What the destination accepts for the rows `rows` of `table`: one row
/// each, in the same order, with the same key and the innermost content of
/// the value.
pub open spec fn row_entries(table: Seq<char>, rows: Seq<SourceRowView>) -> Seq<Entry> {
    Seq::new(
        rows.len(),
        |i: int| Entry::RowInserted { table, id: rows[i].id, value: innermost(rows[i].raw) },
    )
}

/// What the destination accepts when the table `table` with the rows `rows`
/// is migrated: the table, then its rows.
pub open spec fn table_entries(table: Seq<char>, rows: Seq<SourceRowView>) -> Seq<Entry> {
    seq![Entry::TableCreated { table }] + row_entries(table, rows)
}

/// The account of one migrated table.
pub struct TableSummary {
    /// The name of the table.
    pub table: String,
    /// The number of rows that were read from the source and written to the
    /// destination.
    pub rows: usize,
    /// The rows that were read from the source, in the order of the cursor.
    pub read: Ghost<Seq<SourceRowView>>,
}

/// Between `before` and `after` the destination accepted the table `table`
/// and the rows `rows` of it, all of them JSON, and nothing else.
pub open spec fn wrote_table(
    before: Seq<Entry>,
    after: Seq<Entry>,
    table: Seq<char>,
    rows: Seq<SourceRowView>,
) -> bool {
    all_json(rows) && after == before + table_entries(table, rows)
}

/// Between `before` and `after` the table `table` was migrated in full, and
/// `summary` is the account of it.
pub open spec fn table_done(
    before: Seq<Entry>,
    after: Seq<Entry>,
    table: Seq<char>,
    summary: TableSummary,
) -> bool {
    &&& summary.table@ == table
    &&& summary.rows == summary.read@.len()
    &&& wrote_table(before, after, table, summary.read@)
}

/// Between `before` and `after` the migration of the table `table` failed
/// with `error`: either the table was not created and nothing was accepted,
/// or it was created and some of its rows were accepted before the failure.
pub open spec fn table_failed(
    before: Seq<Entry>,
    after: Seq<Entry>,
    table: Seq<char>,
    error: MigrateError,
) -> bool {
    &&& error.table() == Some(table)
    &&& error is SchemaCreation || error is Read || error is MalformedInput || error is Write
    &&& error is SchemaCreation ==> after == before
    &&& !(error is SchemaCreation) ==> exists|rows: Seq<SourceRowView>|
        wrote_table(before, after, table, rows)
}

/// What taking the row `row` of `table` does, between `before` and `after`.
/// A value that is not JSON is a [`MigrateError::MalformedInput`] with the
/// row's key, and nothing is written. Any other row is written with its value
/// unwrapped, unless the destination refuses it, which is a
/// [`MigrateError::Write`] with the row's key.
pub open spec fn row_taken(
    before: Seq<Entry>,
    after: Seq<Entry>,
    table: Seq<char>,
    row: SourceRowView,
    step: Result<Progress, MigrateError>,
) -> bool {
    if json_decode(row.raw) is Invalid {
        &&& step matches Err(MigrateError::MalformedInput { table: named, id })
        &&& named@ == table
        &&& id@ == row.id
        &&& after == before
    } else {
        match step {
            Ok(progress) => {
                &&& progress == Progress::Going
                &&& after == before.push(
                    Entry::RowInserted { table, id: row.id, value: innermost(row.raw) },
                )
            },
            Err(error) => {
                &&& error matches MigrateError::Write { table: named, id, .. }
                &&& named@ == table
                &&& id@ == row.id
                &&& after == before
            },
        }
    }
}

/// What one step of the cursor over the rows of `table` leads to, between
/// `before` and `after`. The end of the rows ends the table. A step that met
/// an error, and a row without text in its first two columns, are a
/// [`MigrateError::Read`]. A row with both is taken as [`row_taken`] says.
pub open spec fn cursor_stepped(
    before: Seq<Entry>,
    after: Seq<Entry>,
    table: Seq<char>,
    answer: Answer,
    step: Result<Progress, MigrateError>,
) -> bool {
    match answer {
        None => step == Ok::<Progress, MigrateError>(Progress::Finished) && after == before,
        Some(Err(_)) => is_read_failure(step, table) && after == before,
        Some(Ok(columns)) => match row_in(columns@) {
            None => is_read_failure(step, table) && after == before,
            Some(row) => row_taken(before, after, table, row, step),
        },
    }
}

/// `step` is the failure to read the table `table`.
pub open spec fn is_read_failure(step: Result<Progress, MigrateError>, table: Seq<char>) -> bool {
    step matches Err(MigrateError::Read { table: named, .. }) && named@ == table
}

/// Deals with what one step of the cursor over the rows of `table` gave: at
/// the end of the rows there is nothing more to do; a row is unwrapped and
/// written to the destination, and the cursor is to be stepped again; a step
/// that met an error ends the table with a failure, as does a row that
/// cannot be read, is not JSON, or is refused by the destination.
///
/// Whether the destination accepts the row is up to the engine; all else is
/// decided here.
pub fn migrate_row<R: Reporter>(
    table: &str,
    destination: &mut Destination,
    answer: Answer,
    reporter: &mut R,
) -> (step: Result<Progress, MigrateError>)
    ensures
        cursor_stepped(
            old(destination).journal(),
            final(destination).journal(),
            table@,
            answer,
            step,
        ),
{
    match answer {
        None => Ok(Progress::Finished),
        Some(Err(error)) => Err(read_failure(table, db::message(&error))),
        Some(Ok(columns)) => {
            let row = match source_row(&columns) {
                Some(row) => row,
                None => {
                    return Err(read_failure(table, "a row without text in ID and json".to_owned()));
                },
            };
            let normalized = match process_row(table, row, reporter) {
                Ok(normalized) => normalized,
                Err(error) => {
                    return Err(error);
                },
            };
            match destination.insert_row(table, &normalized) {
                Ok(()) => Ok(Progress::Going),
                Err(error) => Err(error),
            }
        },
    }
}

/// Migrates the table `table`: creates it in the destination with
/// [`Destination::create_table`], asks the source for its rows with
/// [`select_rows_statement`], and deals with what each step of the cursor
/// gives as [`migrate_row`] says, so that each row is written, with its value
/// unwrapped, before the next is read.
///
/// The first failure ends the migration of the table and is returned; what
/// the destination has accepted by then stays. How many rows there are, and
/// whether a call into either database succeeds, is up to the engine. Given
/// that, a table that cannot be created is a
/// [`MigrateError::SchemaCreation`]; a cursor that cannot be opened or
/// stepped, a row without text in both columns, and more rows than `usize`
/// counts, are a [`MigrateError::Read`]; a value that is not JSON is a
/// [`MigrateError::MalformedInput`]; a row that the destination refuses is a
/// [`MigrateError::Write`].
pub fn process_table<R: Reporter>(
    source: &sqlite::Connection,
    destination: &mut Destination,
    table: &str,
    reporter: &mut R,
) -> (outcome: Result<TableSummary, MigrateError>)
    ensures
        match outcome {
            Ok(summary) => table_done(
                old(destination).journal(),
                final(destination).journal(),
                table@,
                summary,
            ),
            Err(error) => table_failed(
                old(destination).journal(),
                final(destination).journal(),
                table@,
                error,
            ),
        },
{
    let ghost before = destination.journal();
    reporter.report(Event::TableStarted { table });
    match destination.create_table(table) {
        Ok(()) => {},
        Err(error) => {
            return Err(error);
        },
    }
    let ghost none = Seq::<SourceRowView>::empty();
    proof {
        assert(destination.journal() =~= before + table_entries(table@, none));
        assert(wrote_table(before, destination.journal(), table@, none));
    }
    let statement = select_rows_statement(table);
    let compiled = match db::prepare(source, statement.as_str()) {
        Ok(compiled) => compiled,
        Err(error) => {
            return Err(read_failure(table, db::message(&error)));
        },
    };
    let mut cursor = db::into_cursor(compiled);
    let mut rows: usize = 0;
    let ghost mut read = none;
    loop
        invariant
            before == old(destination).journal(),
            rows == read.len(),
            wrote_table(before, destination.journal(), table@, read),
        decreases usize::MAX - rows,
    {
        if rows == usize::MAX {
            return Err(read_failure(table, "more rows than can be counted".to_owned()));
        }
        let answer = db::next_row(&mut cursor);
        let ghost so_far = destination.journal();
        match migrate_row(table, destination, answer, reporter) {
            Ok(Progress::Finished) => {
                return Ok(TableSummary { table: table.to_owned(), rows, read: Ghost(read) });
            },
            Ok(Progress::Going) => {
                proof {
                    let taken = row_in(answer->Some_0->Ok_0@)->Some_0;
                    let longer = read.push(taken);
                    assert(destination.journal() =~= before + table_entries(table@, longer));
                    read = longer;
                }
                rows = rows + 1;
            },
            Err(error) => {
                proof {
                    assert(destination.journal() == so_far);
                }
                return Err(error);
            },
        }
    }
}

/// The failure to read the table `table`, with what is known of it.
pub fn read_failure(table: &str, detail: String) -> (failure: MigrateError)
    ensures
        failure matches MigrateError::Read { table: named, detail: said } && named@ == table@
            && said@ == detail@,
{
    MigrateError::Read { table: table.to_owned(), detail }
}

/// What the destination accepts when the tables of `summaries` are migrated
/// one after the other.
pub open spec fn run_entries(summaries: Seq<TableSummary>) -> Seq<Entry>
    decreases summaries.len(),
{
    if summaries.len() == 0 {
        Seq::empty()
    } else {
        run_entries(summaries.drop_last()) + table_entries(
            summaries.last().table@,
            summaries.last().read@,
        )
    }
}

/// `summaries` are the accounts of the tables `tables`, one for each and in
/// the same order; each counts its rows, and every value read was JSON.
pub open spec fn accounts_of(tables: Seq<String>, summaries: Seq<TableSummary>) -> bool {
    &&& summaries.len() == tables.len()
    &&& forall|i: int|
        0 <= i < summaries.len() ==> {
            &&& (#[trigger] summaries[i]).table@ == tables[i]@
            &&& summaries[i].rows == summaries[i].read@.len()
            &&& all_json(summaries[i].read@)
        }
}

/// Between `before` and `after` the tables `tables` were migrated in full,
/// and `summaries` are the accounts of it.
pub open spec fn run_done(
    before: Seq<Entry>,
    after: Seq<Entry>,
    tables: Seq<String>,
    summaries: Seq<TableSummary>,
) -> bool {
    accounts_of(tables, summaries) && after == before + run_entries(summaries)
}

/// Between `before` and `after` the migration of the tables `tables` failed
/// with `error`, after the tables of `done` had been migrated in full: the
/// failure came in the table that follows them, and no later table was
/// touched.
pub open spec fn run_stopped(
    before: Seq<Entry>,
    after: Seq<Entry>,
    tables: Seq<String>,
    done: Seq<TableSummary>,
    error: MigrateError,
) -> bool {
    &&& done.len() < tables.len()
    &&& accounts_of(tables.take(done.len() as int), done)
    &&& table_failed(before + run_entries(done), after, tables[done.len() as int]@, error)
}

/// Adding the account of one more table adds the entries of that table.
pub proof fn lemma_run_entries_push(summaries: Seq<TableSummary>, summary: TableSummary)
    ensures
        run_entries(summaries.push(summary)) == run_entries(summaries) + table_entries(
            summary.table@,
            summary.read@,
        ),
{
    assert(summaries.push(summary).drop_last() =~= summaries);
}

/// Migrates the tables `tables` in their order, each as [`process_table`]
/// does. The first failure ends the run: the table in which it came stays as
/// far as it got, and the tables after it are not touched.
pub fn migrate_tables<R: Reporter>(
    source: &sqlite::Connection,
    destination: &mut Destination,
    tables: &Vec<String>,
    reporter: &mut R,
) -> (outcome: Result<Vec<TableSummary>, MigrateError>)
    ensures
        match outcome {
            Ok(summaries) => run_done(
                old(destination).journal(),
                final(destination).journal(),
                tables@,
                summaries@,
            ),
            Err(error) => exists|done: Seq<TableSummary>|
                run_stopped(
                    old(destination).journal(),
                    final(destination).journal(),
                    tables@,
                    done,
                    error,
                ),
        },
{
    let ghost before = destination.journal();
    let mut summaries: Vec<TableSummary> = Vec::new();
    let mut index: usize = 0;
    proof {
        assert(destination.journal() =~= before + run_entries(summaries@));
    }
    while index < tables.len()
        invariant
            before == old(destination).journal(),
            index <= tables@.len(),
            summaries@.len() == index,
            accounts_of(tables@.take(index as int), summaries@),
            destination.journal() == before + run_entries(summaries@),
        decreases tables@.len() - index,
    {
        let ghost so_far = summaries@;
        match process_table(source, destination, tables[index].as_str(), reporter) {
            Ok(summary) => {
                proof {
                    lemma_run_entries_push(so_far, summary);
                    assert(destination.journal() =~= before + run_entries(so_far.push(summary)));
                }
                summaries.push(summary);
            },
            Err(error) => {
                proof {
                    assert(run_stopped(before, destination.journal(), tables@, so_far, error));
                }
                return Err(error);
            },
        }
        index = index + 1;
    }
    proof {
        assert(tables@.take(index as int) =~= tables@);
    }
    Ok(summaries)
}

/// Migrates every user table of the source: lists them as [`get_tables`]
/// does, then migrates them as [`migrate_tables`] does.
///
/// A failure to list the tables leaves the destination as it was.
pub fn migrate<R: Reporter>(
    source: &sqlite::Connection,
    destination: &mut Destination,
    reporter: &mut R,
) -> (outcome: Result<Vec<TableSummary>, MigrateError>)
    ensures
        match outcome {
            Ok(summaries) => exists|tables: Seq<String>|
                all_user_tables(tables) && #[trigger] run_done(
                    old(destination).journal(),
                    final(destination).journal(),
                    tables,
                    summaries@,
                ),
            Err(error) => {
                &&& error is Discovery ==> final(destination).journal() == old(
                    destination,
                ).journal()
                &&& !(error is Discovery) ==> exists|tables: Seq<String>, done: Seq<TableSummary>|
                    all_user_tables(tables) && #[trigger] run_stopped(
                        old(destination).journal(),
                        final(destination).journal(),
                        tables,
                        done,
                        error,
                    )
            },
        },
{
    reporter.report(Event::ListingTables);
    let tables = match get_tables(source) {
        Ok(tables) => tables,
        Err(error) => {
            return Err(error);
        },
    };
    reporter.report(Event::TablesFound { tables: &tables });
    migrate_tables(source, destination, &tables, reporter)
}

/// The names of the tables of `summaries`, in their order.
pub open spec fn table_names(summaries: Seq<TableSummary>) -> Seq<Seq<char>> {
    Seq::new(summaries.len(), |i: int| summaries[i].table@)
}

/// No two of `summaries` are of the same table.
pub open spec fn distinct_tables(summaries: Seq<TableSummary>) -> bool {
    forall|i: int, j: int|
        0 <= i < j < summaries.len() ==> (#[trigger] summaries[i]).table@ != (
        #[trigger] summaries[j]).table@
}

/// The entries for the rows of a table create no table, give that table its
/// rows, and give no other table anything.
pub proof fn lemma_row_entries(table: Seq<char>, rows: Seq<SourceRowView>, other: Seq<char>)
    ensures
        tables_created(row_entries(table, rows)) == Seq::<Seq<char>>::empty(),
        rows_written(row_entries(table, rows), table) == normalized_rows(rows),
        other != table ==> rows_written(row_entries(table, rows), other) == Seq::<
            (Seq<char>, Seq<char>),
        >::empty(),
    decreases rows.len(),
{
    if rows.len() > 0 {
        assert(row_entries(table, rows).drop_last() =~= row_entries(table, rows.drop_last()));
        lemma_row_entries(table, rows.drop_last(), other);
        assert(normalized_rows(rows.drop_last()).push(
            (rows.last().id, innermost(rows.last().raw)),
        ) =~= normalized_rows(rows));
    } else {
        assert(normalized_rows(rows) =~= Seq::<(Seq<char>, Seq<char>)>::empty());
    }
}

/// Migrating one table creates that table and no other, and gives it one row
/// for each row read: as many rows as the source had, in the same order, each
/// with its key and the innermost content of its value. No other table
/// receives a row.
pub proof fn lemma_table_keeps_rows(table: Seq<char>, rows: Seq<SourceRowView>, other: Seq<char>)
    ensures
        tables_created(table_entries(table, rows)) == seq![table],
        rows_written(table_entries(table, rows), table) == normalized_rows(rows),
        rows_written(table_entries(table, rows), table).len() == rows.len(),
        other != table ==> rows_written(table_entries(table, rows), other) == Seq::<
            (Seq<char>, Seq<char>),
        >::empty(),
{
    let created = seq![Entry::TableCreated { table }];
    assert(created.drop_last() =~= Seq::<Entry>::empty());
    assert(tables_created(created) =~= seq![table]) by {
        reveal_with_fuel(tables_created, 2);
    }
    assert(rows_written(created, table) =~= Seq::<(Seq<char>, Seq<char>)>::empty()) by {
        reveal_with_fuel(rows_written, 2);
    }
    assert(rows_written(created, other) =~= Seq::<(Seq<char>, Seq<char>)>::empty()) by {
        reveal_with_fuel(rows_written, 2);
    }
    lemma_row_entries(table, rows, other);
    lemma_tables_created_concat(created, row_entries(table, rows));
    lemma_rows_written_concat(created, row_entries(table, rows), table);
    lemma_rows_written_concat(created, row_entries(table, rows), other);
    assert(tables_created(table_entries(table, rows)) =~= seq![table]);
    assert(rows_written(table_entries(table, rows), table) =~= normalized_rows(rows));
    assert(rows_written(table_entries(table, rows), other) =~= rows_written(
        row_entries(table, rows),
        other,
    ));
}

/// A run creates the tables of its summaries, one each and in their order.
pub proof fn lemma_run_keeps_tables(summaries: Seq<TableSummary>)
    ensures
        tables_created(run_entries(summaries)) == table_names(summaries),
    decreases summaries.len(),
{
    if summaries.len() == 0 {
        assert(table_names(summaries) =~= Seq::<Seq<char>>::empty());
    } else {
        let last = summaries.last();
        lemma_run_keeps_tables(summaries.drop_last());
        lemma_table_keeps_rows(last.table@, last.read@, last.table@);
        lemma_tables_created_concat(
            run_entries(summaries.drop_last()),
            table_entries(last.table@, last.read@),
        );
        assert(table_names(summaries.drop_last()) + seq![last.table@] =~= table_names(
            summaries,
        ));
    }
}

/// A run gives a table that is none of its tables no row.
pub proof fn lemma_run_spares_other_tables(summaries: Seq<TableSummary>, other: Seq<char>)
    requires
        forall|i: int| 0 <= i < summaries.len() ==> (#[trigger] summaries[i]).table@ != other,
    ensures
        rows_written(run_entries(summaries), other) == Seq::<(Seq<char>, Seq<char>)>::empty(),
    decreases summaries.len(),
{
    if summaries.len() > 0 {
        let last = summaries.last();
        let earlier = summaries.drop_last();
        assert forall|i: int| 0 <= i < earlier.len() implies (#[trigger] earlier[i]).table@
            != other by {
            assert(earlier[i] == summaries[i]);
        }
        lemma_run_spares_other_tables(earlier, other);
        lemma_table_keeps_rows(last.table@, last.read@, other);
        lemma_rows_written_concat(
            run_entries(earlier),
            table_entries(last.table@, last.read@),
            other,
        );
        assert(rows_written(run_entries(summaries), other) =~= Seq::<
            (Seq<char>, Seq<char>),
        >::empty());
    }
}

/// In a run over tables of different names, every table receives the rows
/// that were read from it, and no others.
pub proof fn lemma_run_keeps_rows(summaries: Seq<TableSummary>, index: int)
    requires
        distinct_tables(summaries),
        0 <= index < summaries.len(),
    ensures
        rows_written(run_entries(summaries), summaries[index].table@) == normalized_rows(
            summaries[index].read@,
        ),
    decreases summaries.len(),
{
    let last = summaries.last();
    let earlier = summaries.drop_last();
    let table = summaries[index].table@;
    lemma_rows_written_concat(run_entries(earlier), table_entries(last.table@, last.read@), table);
    lemma_table_keeps_rows(last.table@, last.read@, table);
    let none = Seq::<(Seq<char>, Seq<char>)>::empty();
    if index == summaries.len() - 1 {
        assert forall|i: int| 0 <= i < earlier.len() implies (#[trigger] earlier[i]).table@
            != table by {
            assert(earlier[i] == summaries[i]);
        }
        lemma_run_spares_other_tables(earlier, table);
        assert(none + normalized_rows(last.read@) =~= normalized_rows(last.read@));
    } else {
        assert(earlier[index] == summaries[index]);
        assert(distinct_tables(earlier)) by {
            assert forall|i: int, j: int| 0 <= i < j < earlier.len() implies (
            #[trigger] earlier[i]).table@ != (#[trigger] earlier[j]).table@ by {
                assert(earlier[i] == summaries[i] && earlier[j] == summaries[j]);
            }
        }
        lemma_run_keeps_rows(earlier, index);
        assert(last.table@ != table);
        assert(normalized_rows(summaries[index].read@) + none =~= normalized_rows(
            summaries[index].read@,
        ));
    }
}

/// Row count preservation. After a run into an empty destination over a
/// list of user tables, every table of the destination has as many rows as
/// were read from the source table of its name: none was left out, none was
/// written twice.
pub proof fn lemma_row_count_preserved(
    tables: Seq<String>,
    summaries: Seq<TableSummary>,
    journal: Seq<Entry>,
    index: int,
)
    requires
        all_user_tables(tables),
        run_done(Seq::empty(), journal, tables, summaries),
        0 <= index < tables.len(),
    ensures
        rows_written(journal, tables[index]@) == normalized_rows(summaries[index].read@),
        rows_written(journal, tables[index]@).len() == summaries[index].rows,
{
    assert(journal =~= run_entries(summaries));
    assert(distinct_tables(summaries)) by {
        assert forall|i: int, j: int| 0 <= i < j < summaries.len() implies (
        #[trigger] summaries[i]).table@ != (#[trigger] summaries[j]).table@ by {
            assert(texts(tables)[i] == tables[i]@ && texts(tables)[j] == tables[j]@);
        }
    }
    lemma_run_keeps_rows(summaries, index);
}

/// Table set preservation. After a run into an empty destination, the tables
/// of the destination are the tables that were to be migrated, one each and
/// in their order.
pub proof fn lemma_table_set_preserved(
    tables: Seq<String>,
    summaries: Seq<TableSummary>,
    journal: Seq<Entry>,
)
    requires
        run_done(Seq::empty(), journal, tables, summaries),
    ensures
        tables_created(journal).len() == tables.len(),
        forall|i: int| 0 <= i < tables.len() ==> tables_created(journal)[i] == tables[i]@,
{
    assert(journal =~= run_entries(summaries));
    lemma_run_keeps_tables(summaries);
}

/// A run that fails takes nothing back: what the destination had accepted
/// before the run, and what it accepted during the run until the failure,
/// stays. The tables that the run created are those that it had migrated in
/// full and, unless the failing table could not be created, that one; no
/// table after it was created.
pub proof fn lemma_failure_keeps_what_was_written(
    before: Seq<Entry>,
    after: Seq<Entry>,
    tables: Seq<String>,
    done: Seq<TableSummary>,
    error: MigrateError,
)
    requires
        run_stopped(before, after, tables, done, error),
    ensures
        extends(after, before),
        extends(after, before + run_entries(done)),
        error is SchemaCreation ==> tables_created(after) == tables_created(before)
            + table_names(done),
        !(error is SchemaCreation) ==> tables_created(after) == tables_created(before)
            + table_names(done).push(tables[done.len() as int]@),
{
    let middle = before + run_entries(done);
    let failing = tables[done.len() as int]@;
    lemma_run_keeps_tables(done);
    lemma_tables_created_concat(before, run_entries(done));
    assert(middle.subrange(0, before.len() as int) =~= before);
    if error is SchemaCreation {
        assert(after.subrange(0, middle.len() as int) =~= middle);
    } else {
        let rows = choose|rows: Seq<SourceRowView>| wrote_table(middle, after, failing, rows);
        assert(after.subrange(0, middle.len() as int) =~= middle);
        assert(after.subrange(0, before.len() as int) =~= before);
        lemma_table_keeps_rows(failing, rows, failing);
        lemma_tables_created_concat(middle, table_entries(failing, rows));
        assert(tables_created(after) =~= tables_created(before) + table_names(done).push(
            failing,
        ));
    }
}

} // verus!
