//! The destination database, and the record of what it has accepted.

use crate::db;
use crate::error::MigrateError;
use crate::rows::NormalizedRow;
use crate::sql::{
    create_table_statement, create_table_text, insert_row_statement, insert_row_text,
};
use vstd::prelude::*;

verus! {

/// Something that the destination has accepted.
pub enum Entry {
    /// The table `table` was created.
    TableCreated { table: Seq<char> },
    /// The row `(id, value)` was appended to `table`.
    RowInserted { table: Seq<char>, id: Seq<char>, value: Seq<char> },
}

/// The statement by which the destination is asked for `entry`. The
/// statement for a row holds two parameters in place of key and value.
pub open spec fn statement_text(entry: Entry) -> Seq<char> {
    match entry {
        Entry::TableCreated { table } => create_table_text(table),
        Entry::RowInserted { table, .. } => insert_row_text(table),
    }
}

/// What the engine's answer to the one step of an insertion means. An
/// insertion gives no row, so the engine has accepted it unless the step
/// gave an error, which is handed on as it came.
pub fn accepted(answer: Option<Result<Vec<Option<String>>, sqlite::Error>>) -> (outcome: Result<
    (),
    sqlite::Error,
>)
    ensures
        match answer {
            Some(Err(error)) => outcome == Err::<(), sqlite::Error>(error),
            _ => outcome is Ok,
        },
{
    match answer {
        Some(Err(error)) => Err(error),
        _ => Ok(()),
    }
}

/// The connection to the destination database, with a record of what the
/// destination has accepted through it.
pub struct Destination<'a> {
    connection: &'a sqlite::Connection,
    journal: Ghost<Seq<Entry>>,
}

impl<'a> Destination<'a> {
    /// What the destination has accepted so far, oldest first. An entry stands
    /// here when, and only when, the engine took its statement without error.
    pub closed spec fn journal(&self) -> Seq<Entry> {
        self.journal@
    }

    /// Takes `connection` as the destination. Nothing has been accepted yet.
    pub fn new(connection: &'a sqlite::Connection) -> (destination: Destination<'a>)
        ensures
            destination.journal() == Seq::<Entry>::empty(),
    {
        Destination { connection, journal: Ghost(Seq::empty()) }
    }

    /// Sends `statement`, which asks for `entry`, and records `entry` where
    /// the engine accepts it. Whether it does is up to the engine.
    fn submit(&mut self, statement: &str, Ghost(entry): Ghost<Entry>) -> (outcome: Result<
        (),
        sqlite::Error,
    >)
        requires
            statement@ == statement_text(entry),
        ensures
            outcome is Ok ==> final(self).journal() == old(self).journal().push(entry),
            outcome is Err ==> final(self).journal() == old(self).journal(),
    {
        let answer = db::execute(self.connection, statement);
        self.record(answer, Ghost(entry))
    }

    /// Takes note of the engine's answer to the statement that asked for
    /// `entry`: where the engine accepted it, `entry` goes to the end of the
    /// journal; where it refused, the journal stays as it is. The answer is
    /// handed on as it came.
    fn record(&mut self, answer: Result<(), sqlite::Error>, Ghost(entry): Ghost<Entry>) -> (outcome:
        Result<(), sqlite::Error>)
        ensures
            outcome == answer,
            answer is Ok ==> final(self).journal() == old(self).journal().push(entry),
            answer is Err ==> final(self).journal() == old(self).journal(),
    {
        if answer.is_ok() {
            proof {
                self.journal@ = self.journal@.push(entry);
            }
        }
        answer
    }

    /// Sends `statement` with `id` bound to its first parameter and `value` to
    /// its second, and steps it once. Whether the engine compiles the
    /// statement, takes the two texts and accepts the step is up to the
    /// engine; what the step's answer means is said by [`accepted`].
    fn send_row(&self, statement: &str, id: &str, value: &str) -> Result<(), sqlite::Error> {
        let compiled = match db::prepare(self.connection, statement) {
            Ok(compiled) => compiled,
            Err(error) => {
                return Err(error);
            },
        };
        let compiled = match db::bind_text(compiled, 1, id) {
            Ok(compiled) => compiled,
            Err(error) => {
                return Err(error);
            },
        };
        let compiled = match db::bind_text(compiled, 2, value) {
            Ok(compiled) => compiled,
            Err(error) => {
                return Err(error);
            },
        };
        let mut cursor = db::into_cursor(compiled);
        accepted(db::next_row(&mut cursor))
    }

    /// Sends `statement`, which asks for the row `entry`, with the row's key
    /// and value bound to its parameters, and records `entry` where the
    /// engine accepts it. Whether it does is up to the engine.
    fn submit_row(
        &mut self,
        statement: &str,
        id: &str,
        value: &str,
        Ghost(entry): Ghost<Entry>,
    ) -> (outcome: Result<(), sqlite::Error>)
        requires
            statement@ == statement_text(entry),
            entry matches Entry::RowInserted { id: key, value: content, .. } && key == id@
                && content == value@,
        ensures
            outcome is Ok ==> final(self).journal() == old(self).journal().push(entry),
            outcome is Err ==> final(self).journal() == old(self).journal(),
    {
        let answer = self.send_row(statement, id, value);
        self.record(answer, Ghost(entry))
    }

    /// Creates the table `table`, with the text columns `ID` and `json`.
    ///
    /// Whether the engine accepts the table is up to the engine: it refuses a
    /// table that exists already.
    pub fn create_table(&mut self, table: &str) -> (outcome: Result<(), MigrateError>)
        ensures
            match outcome {
                Ok(()) => final(self).journal() == old(self).journal().push(
                    Entry::TableCreated { table: table@ },
                ),
                Err(error) => {
                    &&& final(self).journal() == old(self).journal()
                    &&& error matches MigrateError::SchemaCreation { table: named, .. }
                    &&& named@ == table@
                },
            },
    {
        let statement = create_table_statement(table);
        match self.submit(statement.as_str(), Ghost(Entry::TableCreated { table: table@ })) {
            Ok(()) => Ok(()),
            Err(error) => Err(
                MigrateError::SchemaCreation {
                    table: table.to_owned(),
                    detail: db::message(&error),
                },
            ),
        }
    }

    /// Appends `row` to the table `table`. Key and value are bound to the
    /// parameters of the statement, so they reach the table as they are,
    /// whatever characters they hold.
    ///
    /// Whether the engine accepts the row is up to the engine.
    pub fn insert_row(&mut self, table: &str, row: &NormalizedRow) -> (outcome: Result<
        (),
        MigrateError,
    >)
        ensures
            match outcome {
                Ok(()) => final(self).journal() == old(self).journal().push(
                    Entry::RowInserted { table: table@, id: row.id@, value: row.value@ },
                ),
                Err(error) => {
                    &&& final(self).journal() == old(self).journal()
                    &&& error matches MigrateError::Write { table: named, id, .. }
                    &&& named@ == table@
                    &&& id@ == row.id@
                },
            },
    {
        let statement = insert_row_statement(table);
        match self.submit_row(
            statement.as_str(),
            row.id.as_str(),
            row.value.as_str(),
            Ghost(Entry::RowInserted { table: table@, id: row.id@, value: row.value@ }),
        ) {
            Ok(()) => Ok(()),
            Err(error) => Err(
                MigrateError::Write {
                    table: table.to_owned(),
                    id: row.id.clone(),
                    detail: db::message(&error),
                },
            ),
        }
    }
}

/// The tables that the entries of `journal` created, oldest first.
pub open spec fn tables_created(journal: Seq<Entry>) -> Seq<Seq<char>>
    decreases journal.len(),
{
    if journal.len() == 0 {
        Seq::empty()
    } else {
        let earlier = tables_created(journal.drop_last());
        match journal.last() {
            Entry::TableCreated { table } => earlier.push(table),
            Entry::RowInserted { .. } => earlier,
        }
    }
}

/// The rows that the entries of `journal` appended to the table `table`,
/// oldest first, as pairs of key and value.
pub open spec fn rows_written(journal: Seq<Entry>, table: Seq<char>) -> Seq<
    (Seq<char>, Seq<char>),
>
    decreases journal.len(),
{
    if journal.len() == 0 {
        Seq::empty()
    } else {
        let earlier = rows_written(journal.drop_last(), table);
        match journal.last() {
            Entry::TableCreated { .. } => earlier,
            Entry::RowInserted { table: into, id, value } => if into == table {
                earlier.push((id, value))
            } else {
                earlier
            },
        }
    }
}

/// `after` is `before` with more entries behind it: nothing that was accepted
/// has been taken back.
pub open spec fn extends(after: Seq<Entry>, before: Seq<Entry>) -> bool {
    before.len() <= after.len() && after.subrange(0, before.len() as int) == before
}

/// The tables of two journals in a row are the tables of the first, then
/// those of the second.
pub proof fn lemma_tables_created_concat(first: Seq<Entry>, second: Seq<Entry>)
    ensures
        tables_created(first + second) == tables_created(first) + tables_created(second),
    decreases second.len(),
{
    if second.len() == 0 {
        assert(first + second =~= first);
        assert(tables_created(first) + tables_created(second) =~= tables_created(first));
    } else {
        assert((first + second).drop_last() =~= first + second.drop_last());
        lemma_tables_created_concat(first, second.drop_last());
        assert(tables_created(first + second) =~= tables_created(first) + tables_created(
            second,
        ));
    }
}

/// The rows of a table in two journals in a row are its rows in the first,
/// then those in the second.
pub proof fn lemma_rows_written_concat(first: Seq<Entry>, second: Seq<Entry>, table: Seq<char>)
    ensures
        rows_written(first + second, table) == rows_written(first, table) + rows_written(
            second,
            table,
        ),
    decreases second.len(),
{
    if second.len() == 0 {
        assert(first + second =~= first);
        assert(rows_written(first, table) + rows_written(second, table) =~= rows_written(
            first,
            table,
        ));
    } else {
        assert((first + second).drop_last() =~= first + second.drop_last());
        lemma_rows_written_concat(first, second.drop_last(), table);
        assert(rows_written(first + second, table) =~= rows_written(first, table)
            + rows_written(second, table));
    }
}

} // verus!
