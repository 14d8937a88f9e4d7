//! Copies every user table of one SQLite database into another, unwrapping
//! JSON string values that were encoded more than once on the way.
//!
//! Each migrated table has two text columns, `ID` and `json`. The value of
//! `json` is decoded as JSON for as long as the decoded value is itself a
//! string; the text that is left is what the destination receives.

pub mod db;
pub mod destination;
pub mod discovery;
pub mod error;
pub mod json;
pub mod pipeline;
pub mod progress;
pub mod rows;
pub mod run;
pub mod sql;
