//! The statements that the migration sends to the database engine.
//!
//! A table's name stands in a statement between single quotes, with every
//! single quote in it doubled, so that the engine reads the whole name as a
//! name. Keys and values do not stand in a statement at all: the statement
//! that appends a row has two parameters, to which they are bound.

use vstd::prelude::*;
use vstd::string::*;

verus! {

/// `text` with every single quote in it written twice.
pub open spec fn doubled(text: Seq<char>) -> Seq<char>
    decreases text.len(),
{
    if text.len() == 0 {
        Seq::empty()
    } else if text.last() == '\'' {
        doubled(text.drop_last()) + seq!['\'', '\'']
    } else {
        doubled(text.drop_last()).push(text.last())
    }
}

/// `name` as it stands in a statement: between single quotes, with its own
/// single quotes doubled.
pub open spec fn quoted(name: Seq<char>) -> Seq<char> {
    seq!['\''] + doubled(name) + seq!['\'']
}

/// The text that lists the tables of a database: every entry of the catalog
/// that is a table, and neither an index, a view nor a trigger.
pub open spec fn catalog_text() -> Seq<char> {
    "SELECT name FROM sqlite_schema WHERE type = 'table'"@
}

/// The text that creates the destination table `table`.
pub open spec fn create_table_text(table: Seq<char>) -> Seq<char> {
    "CREATE TABLE "@ + quoted(table) + " (ID TEXT, json TEXT)"@
}

/// The text that reads every row of the source table `table`.
pub open spec fn select_rows_text(table: Seq<char>) -> Seq<char> {
    "SELECT ID, json FROM "@ + quoted(table)
}

/// The text that appends a row to the destination table `table`. The key is
/// its first parameter and the value its second.
pub open spec fn insert_row_text(table: Seq<char>) -> Seq<char> {
    "INSERT INTO "@ + quoted(table) + " (ID, json) VALUES (?, ?)"@
}

/// Writes `name` between single quotes, with its own single quotes doubled.
pub fn quote_name(name: &str) -> (text: String)
    ensures
        text@ == quoted(name@),
{
    let length = name.unicode_len();
    let mut text = "'".to_owned();
    let mut index: usize = 0;
    proof {
        reveal_strlit("'");
        assert(name@.take(0) =~= Seq::<char>::empty());
        assert(text@ =~= seq!['\''] + doubled(name@.take(0)));
    }
    while index < length
        invariant
            length == name@.len(),
            index <= length,
            text@ == seq!['\''] + doubled(name@.take(index as int)),
        decreases length - index,
    {
        let ghost before = name@.take(index as int);
        let ghost upto = name@.take(index + 1);
        proof {
            assert(upto.drop_last() =~= before);
            assert(upto.last() == name@[index as int]);
        }
        if name.get_char(index) == '\'' {
            text.append("''");
            proof {
                reveal_strlit("''");
                assert("''"@ =~= seq!['\'', '\'']);
                assert(text@ =~= seq!['\''] + doubled(upto));
            }
        } else {
            let piece = name.substring_char(index, index + 1);
            text.append(piece);
            proof {
                assert(piece@ =~= seq![name@[index as int]]);
                assert(text@ =~= seq!['\''] + doubled(upto));
            }
        }
        index = index + 1;
    }
    text.append("'");
    proof {
        assert(name@.take(length as int) =~= name@);
    }
    text
}

/// The statement that lists the tables of a database.
pub fn catalog_statement() -> (sql: String)
    ensures
        sql@ == catalog_text(),
{
    "SELECT name FROM sqlite_schema WHERE type = 'table'".to_owned()
}

/// The statement that creates the destination table `table`, with its two
/// text columns.
pub fn create_table_statement(table: &str) -> (sql: String)
    ensures
        sql@ == create_table_text(table@),
{
    let name = quote_name(table);
    "CREATE TABLE ".to_owned().concat(name.as_str()).concat(" (ID TEXT, json TEXT)")
}

/// The statement that reads every row of the source table `table`, the key
/// first and the value second.
pub fn select_rows_statement(table: &str) -> (sql: String)
    ensures
        sql@ == select_rows_text(table@),
{
    let name = quote_name(table);
    "SELECT ID, json FROM ".to_owned().concat(name.as_str())
}

/// The statement that appends a row to the destination table `table`, with a
/// parameter for the key and one for the value.
pub fn insert_row_statement(table: &str) -> (sql: String)
    ensures
        sql@ == insert_row_text(table@),
{
    let name = quote_name(table);
    "INSERT INTO ".to_owned().concat(name.as_str()).concat(" (ID, json) VALUES (?, ?)")
}

} // verus!
