//! The calls into the database engine and the file system. Nothing is proved
//! of them, and nothing is claimed of what they return: that depends on the
//! database they run against. The callers are verified for every outcome.

use vstd::prelude::*;

verus! {

#[verifier::external_type_specification]
#[verifier::external_body]
pub struct ExConnection(sqlite::Connection);

#[verifier::external_type_specification]
#[verifier::external_body]
pub struct ExStatement<'l>(sqlite::Statement<'l>);

#[verifier::external_type_specification]
#[verifier::external_body]
pub struct ExCursor<'l>(sqlite::Cursor<'l>);

// `sqlite::Cursor` is an iterator over `sqlite::Row`: Verus takes the cursor
// only where the row is declared as well.
#[verifier::external_type_specification]
#[verifier::external_body]
pub struct ExRow(sqlite::Row);

#[verifier::external_type_specification]
#[verifier::external_body]
pub struct ExError(sqlite::Error);

/// Opens the database at `path` with `sqlite::open`, for reading and
/// writing; the engine creates the file where there is none. Nothing is
/// claimed of the result.
#[verifier::external_body]
pub(crate) fn open(path: &str) -> Result<sqlite::Connection, sqlite::Error> {
    sqlite::open(path)
}

/// Opens the database at `path` with `sqlite::Connection::open_with_flags`,
/// for reading and writing, without the flag that lets the engine create a
/// file where there is none. Nothing is claimed of the result.
#[verifier::external_body]
pub(crate) fn open_existing(path: &str) -> Result<sqlite::Connection, sqlite::Error> {
    sqlite::Connection::open_with_flags(path, sqlite::OpenFlags::new().set_read_write())
}

/// Asks `std::path::Path::exists` whether there is something at `path`.
/// Nothing is claimed of the answer.
#[verifier::external_body]
pub(crate) fn path_exists(path: &str) -> bool {
    std::path::Path::new(path).exists()
}

/// Runs `statement` with `sqlite::Connection::execute`, without looking at
/// any rows it may produce. Nothing is claimed of the result.
#[verifier::external_body]
pub(crate) fn execute(connection: &sqlite::Connection, statement: &str) -> Result<
    (),
    sqlite::Error,
> {
    connection.execute(statement)
}

/// Compiles `statement` with `sqlite::Connection::prepare`. Nothing is
/// claimed of the result.
#[verifier::external_body]
pub(crate) fn prepare<'l>(connection: &'l sqlite::Connection, statement: &str) -> Result<
    sqlite::Statement<'l>,
    sqlite::Error,
> {
    connection.prepare(statement)
}

/// Gives the parameter `index` of `statement` the value `text`, with
/// `sqlite::Statement::bind`. Parameters are counted from 1, and the crate
/// asserts that `index` is not 0. Nothing is claimed of the result.
#[verifier::external_body]
pub(crate) fn bind_text<'l>(statement: sqlite::Statement<'l>, index: usize, text: &str) -> Result<
    sqlite::Statement<'l>,
    sqlite::Error,
>
    requires
        index >= 1,
{
    statement.bind(index, text)
}

/// Turns `statement` into a cursor over its rows, with
/// `sqlite::Statement::into_cursor`. Nothing is claimed of the cursor.
#[verifier::external_body]
pub(crate) fn into_cursor<'l>(statement: sqlite::Statement<'l>) -> sqlite::Cursor<'l> {
    statement.into_cursor()
}

/// Steps `cursor` to its next row with `sqlite::Cursor::next`. `None` is the
/// end of the rows. A row comes as its columns in order, each read with
/// `sqlite::Row::try_get`: its text where the column holds text, and `None`
/// where it holds anything else. Nothing is claimed of the result, nor of
/// how many rows there are.
#[verifier::external_body]
pub(crate) fn next_row<'l>(cursor: &mut sqlite::Cursor<'l>) -> Option<
    Result<Vec<Option<String>>, sqlite::Error>,
> {
    let width = cursor.column_count();
    match cursor.next() {
        Some(Ok(row)) => Some(
            Ok((0..width).map(|column| row.try_get::<String, usize>(column).ok()).collect()),
        ),
        Some(Err(error)) => Some(Err(error)),
        None => None,
    }
}

/// What `error` says of itself through its `Display`. Nothing is claimed of
/// the text.
#[verifier::external_body]
pub(crate) fn message(error: &sqlite::Error) -> String {
    error.to_string()
}

} // verus!
