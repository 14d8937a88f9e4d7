//! The ways in which a migration fails.

use vstd::prelude::*;
use vstd::string::*;

verus! {

/// The class of a failure.
#[derive(Clone, Copy, Debug, PartialEq, Eq, Structural)]
pub enum ErrorKind {
    /// The two paths given cannot be used together.
    Configuration,
    /// A database could not be opened.
    Connection,
    /// The list of tables could not be read.
    Discovery,
    /// A table could not be created in the destination.
    SchemaCreation,
    /// A row could not be read from the source.
    Read,
    /// A value of the source is not JSON.
    MalformedInput,
    /// A row could not be written to the destination.
    Write,
}

/// A failure of the migration. Every failure ends the run; `detail` is what
/// the database engine said about it.
#[derive(Debug, PartialEq, Eq)]
pub enum MigrateError {
    /// Source and destination are the same path.
    SamePath,
    /// There is already something at the destination path.
    DestinationExists,
    /// The source could not be opened as a database.
    SourceUnopenable { detail: String },
    /// The destination could not be created.
    DestinationUncreatable { detail: String },
    /// The catalog of the source could not be read.
    Discovery { detail: String },
    /// The destination refused to create `table`.
    SchemaCreation { table: String, detail: String },
    /// Reading the rows of `table` failed.
    Read { table: String, detail: String },
    /// The value of the row `id` of `table` is not JSON.
    MalformedInput { table: String, id: String },
    /// The destination refused the row `id` of `table`.
    Write { table: String, id: String, detail: String },
}

impl MigrateError {
    /// The class of this failure.
    pub open spec fn spec_kind(&self) -> ErrorKind {
        match self {
            MigrateError::SamePath => ErrorKind::Configuration,
            MigrateError::DestinationExists => ErrorKind::Configuration,
            MigrateError::SourceUnopenable { .. } => ErrorKind::Connection,
            MigrateError::DestinationUncreatable { .. } => ErrorKind::Connection,
            MigrateError::Discovery { .. } => ErrorKind::Discovery,
            MigrateError::SchemaCreation { .. } => ErrorKind::SchemaCreation,
            MigrateError::Read { .. } => ErrorKind::Read,
            MigrateError::MalformedInput { .. } => ErrorKind::MalformedInput,
            MigrateError::Write { .. } => ErrorKind::Write,
        }
    }

    /// The class of this failure.
    #[verifier::when_used_as_spec(spec_kind)]
    pub fn kind(&self) -> (kind: ErrorKind)
        ensures
            kind == self.spec_kind(),
    {
        match self {
            MigrateError::SamePath => ErrorKind::Configuration,
            MigrateError::DestinationExists => ErrorKind::Configuration,
            MigrateError::SourceUnopenable { .. } => ErrorKind::Connection,
            MigrateError::DestinationUncreatable { .. } => ErrorKind::Connection,
            MigrateError::Discovery { .. } => ErrorKind::Discovery,
            MigrateError::SchemaCreation { .. } => ErrorKind::SchemaCreation,
            MigrateError::Read { .. } => ErrorKind::Read,
            MigrateError::MalformedInput { .. } => ErrorKind::MalformedInput,
            MigrateError::Write { .. } => ErrorKind::Write,
        }
    }

    /// The table that the failure concerns, where it concerns one.
    pub open spec fn table(&self) -> Option<Seq<char>> {
        match self {
            MigrateError::SchemaCreation { table, .. } => Some(table@),
            MigrateError::Read { table, .. } => Some(table@),
            MigrateError::MalformedInput { table, .. } => Some(table@),
            MigrateError::Write { table, .. } => Some(table@),
            _ => None,
        }
    }

    /// The key of the row that the failure concerns, where it concerns one.
    pub open spec fn row(&self) -> Option<Seq<char>> {
        match self {
            MigrateError::MalformedInput { id, .. } => Some(id@),
            MigrateError::Write { id, .. } => Some(id@),
            _ => None,
        }
    }

    /// The text of [`MigrateError::describe`].
    pub open spec fn description(&self) -> Seq<char> {
        match self {
            MigrateError::SamePath => "source and destination are the same file"@,
            MigrateError::DestinationExists => "the destination file already exists"@,
            MigrateError::SourceUnopenable { detail } => "cannot open the source: "@ + detail@,
            MigrateError::DestinationUncreatable { detail } => "cannot create the destination: "@
                + detail@,
            MigrateError::Discovery { detail } => "cannot list the tables: "@ + detail@,
            MigrateError::SchemaCreation { table, detail } => "cannot create table "@ + table@
                + ": "@ + detail@,
            MigrateError::Read { table, detail } => "cannot read table "@ + table@ + ": "@
                + detail@,
            MigrateError::MalformedInput { table, id } => "not JSON in table "@ + table@
                + ", row "@ + id@,
            MigrateError::Write { table, id, detail } => "cannot write to table "@ + table@
                + ", row "@ + id@ + ": "@ + detail@,
        }
    }

    /// A sentence for the user: what failed, with the table and the row where
    /// the failure has them.
    pub fn describe(&self) -> (text: String)
        ensures
            text@ == self.description(),
    {
        match self {
            MigrateError::SamePath => "source and destination are the same file".to_owned(),
            MigrateError::DestinationExists => "the destination file already exists".to_owned(),
            MigrateError::SourceUnopenable { detail } => {
                "cannot open the source: ".to_owned().concat(detail.as_str())
            },
            MigrateError::DestinationUncreatable { detail } => {
                "cannot create the destination: ".to_owned().concat(detail.as_str())
            },
            MigrateError::Discovery { detail } => {
                "cannot list the tables: ".to_owned().concat(detail.as_str())
            },
            MigrateError::SchemaCreation { table, detail } => {
                "cannot create table ".to_owned().concat(table.as_str()).concat(": ").concat(
                    detail.as_str(),
                )
            },
            MigrateError::Read { table, detail } => {
                "cannot read table ".to_owned().concat(table.as_str()).concat(": ").concat(
                    detail.as_str(),
                )
            },
            MigrateError::MalformedInput { table, id } => {
                "not JSON in table ".to_owned().concat(table.as_str()).concat(", row ").concat(
                    id.as_str(),
                )
            },
            MigrateError::Write { table, id, detail } => {
                "cannot write to table ".to_owned().concat(table.as_str()).concat(
                    ", row ",
                ).concat(id.as_str()).concat(": ").concat(detail.as_str())
            },
        }
    }
}

} // verus!
