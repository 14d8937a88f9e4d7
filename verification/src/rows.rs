//! The rows of a table, as the source holds them and as the destination
//! receives them.

use crate::error::MigrateError;
use crate::json::{has_innermost, innermost, json_decode, normalize};
use crate::progress::{Event, Reporter};
use vstd::prelude::*;

verus! {

/// What the engine gives for one step of a cursor: `None` at the end of the
/// rows, else the columns of the next row or the error that the step met.
pub type Answer = Option<Result<Vec<Option<String>>, sqlite::Error>>;

/// Whether a cursor has more to give.
#[derive(Clone, Copy, Debug, PartialEq, Eq, Structural)]
pub enum Progress {
    /// A row was taken; the cursor is to be stepped again.
    Going,
    /// The cursor has given its last row.
    Finished,
}

/// A row as the source holds it.
pub struct SourceRow {
    /// The key of the row.
    pub id: String,
    /// The value of the row: JSON, possibly encoded as a string several times.
    pub raw: String,
}

/// The mathematical value of a [`SourceRow`].
pub struct SourceRowView {
    pub id: Seq<char>,
    pub raw: Seq<char>,
}

impl View for SourceRow {
    type V = SourceRowView;

    open spec fn view(&self) -> SourceRowView {
        SourceRowView { id: self.id@, raw: self.raw@ }
    }
}

/// A row as the destination receives it.
pub struct NormalizedRow {
    /// The key of the row, as the source had it.
    pub id: String,
    /// The innermost content of the value that the source had.
    pub value: String,
}

/// The row in the columns that a cursor gave: the key in the first column,
/// the value in the second, where both hold text.
pub open spec fn row_in(columns: Seq<Option<String>>) -> Option<SourceRowView> {
    if columns.len() >= 2 && columns[0] is Some && columns[1] is Some {
        Some(SourceRowView { id: columns[0]->Some_0@, raw: columns[1]->Some_0@ })
    } else {
        None
    }
}

/// Reads a source row from the columns that a cursor gave. `None` where
/// there are fewer than two columns, or where the key or the value is not
/// text.
pub fn source_row(columns: &Vec<Option<String>>) -> (row: Option<SourceRow>)
    ensures
        row is Some <==> row_in(columns@) is Some,
        row matches Some(found) ==> Some(found@) == row_in(columns@),
{
    if columns.len() < 2 {
        return None;
    }
    match (&columns[0], &columns[1]) {
        (Some(id), Some(raw)) => Some(SourceRow { id: id.clone(), raw: raw.clone() }),
        _ => None,
    }
}

/// Turns a row of the source table `table` into the row that the destination
/// receives: the same key, and the innermost content of the value. The
/// reporter hears of the row before anything is done with it.
///
/// Fails with [`MigrateError::MalformedInput`] exactly where the value is not
/// JSON.
pub fn process_row<R: Reporter>(table: &str, row: SourceRow, reporter: &mut R) -> (outcome: Result<
    NormalizedRow,
    MigrateError,
>)
    ensures
        outcome is Err <==> json_decode(row.raw@) is Invalid,
        match outcome {
            Ok(normalized) => {
                &&& has_innermost(row.raw@)
                &&& normalized.id@ == row.id@
                &&& normalized.value@ == innermost(row.raw@)
            },
            Err(error) => {
                &&& error matches MigrateError::MalformedInput { table: named, id }
                &&& named@ == table@
                &&& id@ == row.id@
            },
        },
{
    reporter.report(Event::RowStarted { id: row.id.as_str() });
    match normalize(row.raw.as_str()) {
        Some(unwrapped) => Ok(NormalizedRow { id: row.id, value: unwrapped.value }),
        None => Err(MigrateError::MalformedInput { table: table.to_owned(), id: row.id }),
    }
}

/// Every value in `rows` is JSON.
pub open spec fn all_json(rows: Seq<SourceRowView>) -> bool {
    forall|i: int| 0 <= i < rows.len() ==> !(json_decode(#[trigger] rows[i].raw) is Invalid)
}

/// The rows that the destination receives for `rows`, as pairs of key and
/// value: one for each row and in the same order, with the same key and the
/// innermost content of the value.
pub open spec fn normalized_rows(rows: Seq<SourceRowView>) -> Seq<(Seq<char>, Seq<char>)> {
    Seq::new(rows.len(), |i: int| (rows[i].id, innermost(rows[i].raw)))
}

} // verus!
