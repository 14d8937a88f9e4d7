//! Finding the tables to migrate.

use crate::db;
use crate::error::MigrateError;
use crate::rows::{Answer, Progress};
use crate::sql::catalog_statement;
use vstd::prelude::*;
use vstd::string::*;

verus! {

/// The beginning of the names that the engine keeps for its own tables.
pub open spec fn reserved_prefix() -> Seq<char> {
    seq!['s', 'q', 'l', 'i', 't', 'e', '_']
}

/// Whether `name` is one of the names that the engine keeps for itself: those
/// that begin with `sqlite_`.
pub open spec fn is_reserved(name: Seq<char>) -> bool {
    name.len() >= 7 && name.subrange(0, 7) == reserved_prefix()
}

/// Whether `name` is one of the names that the engine keeps for itself.
pub fn is_reserved_name(name: &str) -> (reserved: bool)
    ensures
        reserved == is_reserved(name@),
{
    if name.unicode_len() < 7 {
        return false;
    }
    let reserved = name.get_char(0) == 's' && name.get_char(1) == 'q' && name.get_char(2) == 'l'
        && name.get_char(3) == 'i' && name.get_char(4) == 't' && name.get_char(5) == 'e'
        && name.get_char(6) == '_';
    proof {
        if reserved {
            assert(name@.subrange(0, 7) =~= reserved_prefix());
        } else {
            let head = name@.subrange(0, 7);
            assert(head[0] == name@[0] && head[1] == name@[1] && head[2] == name@[2] && head[3]
                == name@[3] && head[4] == name@[4] && head[5] == name@[5] && head[6] == name@[6]);
        }
    }
    reserved
}

/// The text of the first column of a row, where the row has one and it holds
/// text.
pub open spec fn first_text(columns: Seq<Option<String>>) -> Option<Seq<char>> {
    if columns.len() >= 1 && columns[0] is Some {
        Some(columns[0]->Some_0@)
    } else {
        None
    }
}

/// The table name in a row of the catalog: the text of its first column.
/// `None` where the row has no column or the first holds no text.
pub fn table_name(columns: &Vec<Option<String>>) -> (name: Option<String>)
    ensures
        name is Some <==> first_text(columns@) is Some,
        name matches Some(text) ==> Some(text@) == first_text(columns@),
{
    if columns.len() == 0 {
        return None;
    }
    match &columns[0] {
        Some(text) => Some(text.clone()),
        None => None,
    }
}

/// The names in `names`, as texts.
pub open spec fn texts(names: Seq<String>) -> Seq<Seq<char>> {
    Seq::new(names.len(), |i: int| names[i]@)
}

/// `names` is a list of user tables: no name in it is reserved, and none
/// stands in it twice.
pub open spec fn all_user_tables(names: Seq<String>) -> bool {
    &&& texts(names).no_duplicates()
    &&& forall|i: int| 0 <= i < names.len() ==> !is_reserved(#[trigger] names[i]@)
}

/// The list `listed` after the catalog has given the name `name`: the name
/// stands at its end, unless it is reserved or is listed already.
pub open spec fn with_table(listed: Seq<Seq<char>>, name: Seq<char>) -> Seq<Seq<char>> {
    if is_reserved(name) || listed.contains(name) {
        listed
    } else {
        listed.push(name)
    }
}

/// Whether `name` stands in `names`.
pub fn is_listed(names: &Vec<String>, name: &String) -> (listed: bool)
    ensures
        listed == texts(names@).contains(name@),
{
    let mut index: usize = 0;
    while index < names.len()
        invariant
            index <= names@.len(),
            forall|i: int| 0 <= i < index ==> texts(names@)[i] != name@,
        decreases names@.len() - index,
    {
        if names[index] == *name {
            proof {
                assert(texts(names@)[index as int] == name@);
            }
            return true;
        }
        index = index + 1;
    }
    false
}

/// Takes a row of the catalog into the list `names`: the name in its first
/// column is added at the end, unless it is reserved or listed already, in
/// which case the list stays as it is. A row without a name in text is a
/// [`MigrateError::Discovery`], and leaves the list as it is too.
pub fn keep_user_table(names: &mut Vec<String>, columns: &Vec<Option<String>>) -> (outcome: Result<
    (),
    MigrateError,
>)
    ensures
        match first_text(columns@) {
            Some(name) => {
                &&& outcome is Ok
                &&& texts(final(names)@) == with_table(texts(old(names)@), name)
            },
            None => {
                &&& outcome matches Err(error)
                &&& error is Discovery
                &&& final(names)@ == old(names)@
            },
        },
        all_user_tables(old(names)@) ==> all_user_tables(final(names)@),
{
    match table_name(columns) {
        None => Err(MigrateError::Discovery { detail: "a table name that is not text".to_owned() }),
        Some(name) => {
            if !is_reserved_name(name.as_str()) && !is_listed(names, &name) {
                let ghost before = names@;
                names.push(name);
                proof {
                    assert(texts(names@) =~= texts(before).push(name@));
                    if all_user_tables(before) {
                        assert forall|i: int| 0 <= i < names@.len() implies !is_reserved(
                            #[trigger] names@[i]@,
                        ) by {
                            if i < before.len() {
                                assert(names@[i] == before[i]);
                            }
                        }
                        assert forall|i: int, j: int|
                            0 <= i < names@.len() && 0 <= j < names@.len() && i != j implies texts(
                            names@,
                        )[i] != texts(names@)[j] by {
                            if i < before.len() {
                                assert(texts(names@)[i] == texts(before)[i]);
                            }
                            if j < before.len() {
                                assert(texts(names@)[j] == texts(before)[j]);
                            }
                        }
                    }
                }
            }
            Ok(())
        },
    }
}

/// What one step of the cursor over the catalog means for the list `names`.
/// At the end of the rows the list is complete. A row is taken into the list
/// as [`keep_user_table`] does, and the cursor is to be stepped again. A
/// step that met an error is a [`MigrateError::Discovery`], as is a row
/// without a name in text; both leave the list as it is.
pub fn catalog_step(names: &mut Vec<String>, answer: Answer) -> (step: Result<
    Progress,
    MigrateError,
>)
    ensures
        match answer {
            None => step == Ok::<Progress, MigrateError>(Progress::Finished) && final(names)@
                == old(names)@,
            Some(Err(_)) => {
                &&& step matches Err(error)
                &&& error is Discovery
                &&& final(names)@ == old(names)@
            },
            Some(Ok(columns)) => match first_text(columns@) {
                Some(name) => {
                    &&& step == Ok::<Progress, MigrateError>(Progress::Going)
                    &&& texts(final(names)@) == with_table(texts(old(names)@), name)
                },
                None => {
                    &&& step matches Err(error)
                    &&& error is Discovery
                    &&& final(names)@ == old(names)@
                },
            },
        },
        all_user_tables(old(names)@) ==> all_user_tables(final(names)@),
{
    match answer {
        None => Ok(Progress::Finished),
        Some(Err(error)) => Err(discovery_failure(&error)),
        Some(Ok(columns)) => match keep_user_table(names, &columns) {
            Ok(()) => Ok(Progress::Going),
            Err(error) => Err(error),
        },
    }
}

/// The failure to read the catalog that the engine reported as `error`.
pub fn discovery_failure(error: &sqlite::Error) -> (failure: MigrateError)
    ensures
        failure is Discovery,
{
    MigrateError::Discovery { detail: db::message(error) }
}

/// Lists the user's tables of the database behind `connection`, each once,
/// in the order of the catalog. The catalog is asked for its tables with
/// [`catalog_statement`], and what each step of the cursor gives is dealt
/// with as [`catalog_step`] says: the names are taken as they come, but for
/// those that are reserved.
///
/// Which rows the catalog gives, and whether it can be read at all, is up to
/// the engine: the list is empty where the engine gives no row. Where the
/// catalog cannot be read, or gives a name that is not text, the result is a
/// [`MigrateError::Discovery`].
pub fn get_tables(connection: &sqlite::Connection) -> (tables: Result<Vec<String>, MigrateError>)
    ensures
        match tables {
            Ok(names) => all_user_tables(names@),
            Err(error) => error is Discovery,
        },
{
    let statement = catalog_statement();
    let compiled = match db::prepare(connection, statement.as_str()) {
        Ok(compiled) => compiled,
        Err(error) => {
            return Err(discovery_failure(&error));
        },
    };
    let mut cursor = db::into_cursor(compiled);
    let mut names: Vec<String> = Vec::new();
    let mut seen: usize = 0;
    proof {
        assert(texts(names@) =~= Seq::<Seq<char>>::empty());
    }
    loop
        invariant
            all_user_tables(names@),
        decreases usize::MAX - seen,
    {
        if seen == usize::MAX {
            return Err(
                MigrateError::Discovery { detail: "more tables than can be counted".to_owned() },
            );
        }
        seen = seen + 1;
        let answer = db::next_row(&mut cursor);
        match catalog_step(&mut names, answer) {
            Ok(Progress::Finished) => {
                return Ok(names);
            },
            Ok(Progress::Going) => {},
            Err(error) => {
                return Err(error);
            },
        }
    }
}

} // verus!
