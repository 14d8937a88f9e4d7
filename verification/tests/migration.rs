use json_migrate::destination::{accepted, Destination};
use json_migrate::discovery::get_tables;
use json_migrate::error::{ErrorKind, MigrateError};
use json_migrate::pipeline::{migrate, migrate_row, migrate_tables, process_table};
use json_migrate::progress::{Event, Reporter, Silent};
use json_migrate::rows::{NormalizedRow, Progress};
use json_migrate::run::{destination_opened, run, source_opened};

struct Recorder(Vec<String>);

impl Reporter for Recorder {
    fn report(&mut self, event: Event<'_>) {
        self.0.push(format!("{:?}", event));
    }
}

fn memory() -> sqlite::Connection {
    sqlite::open(":memory:").unwrap()
}

fn engine_error() -> sqlite::Error {
    sqlite::Error { code: Some(10), message: Some("disk I/O error".to_string()) }
}

fn quoted(table: &str) -> String {
    format!("\"{}\"", table.replace('"', "\"\""))
}

fn source_with(table: &str, rows: &[(&str, &str)]) -> sqlite::Connection {
    let source = memory();
    add_table(&source, table, rows);
    source
}

fn add_table(connection: &sqlite::Connection, table: &str, rows: &[(&str, &str)]) {
    connection.execute(format!("CREATE TABLE {} (ID TEXT, json TEXT)", quoted(table))).unwrap();
    for (id, json) in rows {
        let statement = connection
            .prepare(format!("INSERT INTO {} (ID, json) VALUES (?, ?)", quoted(table)))
            .unwrap()
            .bind(1, *id)
            .unwrap()
            .bind(2, *json)
            .unwrap();
        let mut cursor = statement.into_cursor();
        assert!(cursor.next().is_none());
    }
}

fn rows_of(connection: &sqlite::Connection, table: &str) -> Vec<(String, String)> {
    let cursor = connection
        .prepare(format!("SELECT ID, json FROM {}", quoted(table)))
        .unwrap()
        .into_cursor();
    cursor
        .map(|row| {
            let row = row.unwrap();
            (row.get::<String, _>(0), row.get::<String, _>(1))
        })
        .collect()
}

fn tables_of(connection: &sqlite::Connection) -> Vec<String> {
    let cursor = connection
        .prepare("SELECT name FROM sqlite_schema WHERE type = 'table' ORDER BY name")
        .unwrap()
        .into_cursor();
    cursor.map(|row| row.unwrap().get::<String, _>(0)).collect()
}

fn count_of(connection: &sqlite::Connection, table: &str) -> i64 {
    let mut cursor = connection
        .prepare(format!("SELECT count(*) FROM {}", quoted(table)))
        .unwrap()
        .into_cursor();
    cursor.next().unwrap().unwrap().get::<i64, _>(0)
}

fn pairs(rows: &[(&str, &str)]) -> Vec<(String, String)> {
    rows.iter().map(|(id, value)| (id.to_string(), value.to_string())).collect()
}

fn columns(id: &str, json: &str) -> Vec<Option<String>> {
    vec![Some(id.to_string()), Some(json.to_string())]
}

fn stamp() -> u128 {
    std::time::SystemTime::now().duration_since(std::time::UNIX_EPOCH).unwrap().as_nanos()
}

fn is_missing(path: &str) -> bool {
    sqlite::Connection::open_with_flags(path, sqlite::OpenFlags::new().set_read_only()).is_err()
}

#[test]
fn empty_database_has_no_tables() {
    assert_eq!(get_tables(&memory()), Ok(vec![]));
}

#[test]
fn user_tables_are_listed_in_catalog_order() {
    let source = memory();
    add_table(&source, "second", &[]);
    add_table(&source, "first", &[]);
    assert_eq!(get_tables(&source), Ok(vec!["second".to_string(), "first".to_string()]));
}

#[test]
fn internal_tables_are_not_listed() {
    let source = memory();
    source.execute("CREATE TABLE counted (n INTEGER PRIMARY KEY AUTOINCREMENT, ID TEXT)").unwrap();
    source.execute("INSERT INTO counted (ID) VALUES ('a')").unwrap();
    assert!(tables_of(&source).contains(&"sqlite_sequence".to_string()));
    assert_eq!(get_tables(&source), Ok(vec!["counted".to_string()]));
}

#[test]
fn table_with_a_name_close_to_the_reserved_ones_is_listed() {
    let source = memory();
    add_table(&source, "sqlitex", &[]);
    add_table(&source, "T", &[]);
    add_table(&source, "sqlite", &[]);
    add_table(&source, "sqlitex_data", &[]);
    assert_eq!(
        get_tables(&source),
        Ok(vec![
            "sqlitex".to_string(),
            "T".to_string(),
            "sqlite".to_string(),
            "sqlitex_data".to_string()
        ])
    );
}

#[test]
fn views_indexes_and_triggers_are_not_listed() {
    let source = source_with("T", &[("a", "\"x\"")]);
    source.execute("CREATE INDEX T_idx ON T (ID)").unwrap();
    source.execute("CREATE VIEW V AS SELECT ID FROM T").unwrap();
    source
        .execute("CREATE TRIGGER trg AFTER INSERT ON T BEGIN DELETE FROM T WHERE ID = ''; END")
        .unwrap();
    assert_eq!(get_tables(&source), Ok(vec!["T".to_string()]));
}

#[test]
fn table_name_that_is_not_text_is_a_discovery_error() {
    let source = memory();
    source.execute("PRAGMA writable_schema = ON").unwrap();
    source
        .execute(
            "INSERT INTO sqlite_schema (type, name, tbl_name, rootpage, sql)
             VALUES ('table', x'00ff', 'odd', 0, NULL)",
        )
        .unwrap();
    match get_tables(&source) {
        Err(error) => assert_eq!(error.kind(), ErrorKind::Discovery),
        Ok(tables) => panic!("a name that is not text was listed among {:?}", tables),
    }
}

#[test]
fn failure_to_list_leaves_the_destination_empty() {
    let source = memory();
    add_table(&source, "T", &[("a", "\"x\"")]);
    source.execute("PRAGMA writable_schema = ON").unwrap();
    source
        .execute(
            "INSERT INTO sqlite_schema (type, name, tbl_name, rootpage, sql)
             VALUES ('table', x'00ff', 'odd', 0, NULL)",
        )
        .unwrap();
    let output = memory();
    let mut destination = Destination::new(&output);
    match migrate(&source, &mut destination, &mut Silent) {
        Err(error) => assert_eq!(error.kind(), ErrorKind::Discovery),
        Ok(_) => panic!("a catalog that cannot be listed was migrated"),
    }
    assert_eq!(tables_of(&output), Vec::<String>::new());
}

#[test]
fn two_rows_are_unwrapped() {
    let source = source_with("T", &[("a", "\"x\""), ("b", "\"\\\"y\\\"\"")]);
    let output = memory();
    let mut destination = Destination::new(&output);
    let summary = process_table(&source, &mut destination, "T", &mut Silent).unwrap();
    assert_eq!(summary.table, "T");
    assert_eq!(summary.rows, 2);
    assert_eq!(rows_of(&output, "T"), pairs(&[("a", "x"), ("b", "y")]));
}

#[test]
fn empty_table_is_created_empty() {
    let source = source_with("T", &[]);
    let output = memory();
    let mut destination = Destination::new(&output);
    let summary = process_table(&source, &mut destination, "T", &mut Silent).unwrap();
    assert_eq!(summary.rows, 0);
    assert_eq!(tables_of(&output), vec!["T".to_string()]);
    assert_eq!(rows_of(&output, "T"), pairs(&[]));
}

#[test]
fn rows_keep_their_order_and_repeats() {
    let source = source_with("T", &[("k", "\"2\""), ("k", "\"1\""), ("k", "\"2\"")]);
    let output = memory();
    let mut destination = Destination::new(&output);
    let summary = process_table(&source, &mut destination, "T", &mut Silent).unwrap();
    assert_eq!(summary.rows, 3);
    assert_eq!(rows_of(&output, "T"), pairs(&[("k", "2"), ("k", "1"), ("k", "2")]));
}

#[test]
fn key_with_a_quote_is_stored_as_it_is() {
    let source = source_with("T", &[("o'k", "\"1\"")]);
    let output = memory();
    let mut destination = Destination::new(&output);
    let summary = process_table(&source, &mut destination, "T", &mut Silent).unwrap();
    assert_eq!(summary.rows, 1);
    assert_eq!(rows_of(&output, "T"), pairs(&[("o'k", "1")]));
}

#[test]
fn value_with_a_quote_is_stored_as_it_is() {
    let source = source_with("T", &[("a", "\"x\""), ("b", "\"it's\"")]);
    let output = memory();
    let mut destination = Destination::new(&output);
    let summary = process_table(&source, &mut destination, "T", &mut Silent).unwrap();
    assert_eq!(summary.rows, 2);
    assert_eq!(rows_of(&output, "T"), pairs(&[("a", "x"), ("b", "it's")]));
}

#[test]
fn value_that_reads_like_a_statement_is_one_row() {
    let value = "x'), ('k2', 'y";
    let other = "x'); DROP TABLE T; --";
    let raw = serde_json::to_string(value).unwrap();
    let raw_other = serde_json::to_string(other).unwrap();
    let source = source_with("T", &[("k1", &raw), ("k3", &raw_other)]);
    let output = memory();
    let mut destination = Destination::new(&output);
    let summary = process_table(&source, &mut destination, "T", &mut Silent).unwrap();
    assert_eq!(summary.rows, 2);
    assert_eq!(count_of(&output, "T"), 2);
    assert_eq!(rows_of(&output, "T"), pairs(&[("k1", value), ("k3", other)]));
}

#[test]
fn table_with_a_quote_in_its_name_is_migrated() {
    let source = source_with("it's", &[("a", "\"x\"")]);
    let output = memory();
    let mut destination = Destination::new(&output);
    let summaries = migrate(&source, &mut destination, &mut Silent).unwrap();
    assert_eq!(summaries.len(), 1);
    assert_eq!(summaries[0].table, "it's");
    assert_eq!(tables_of(&output), vec!["it's".to_string()]);
    assert_eq!(rows_of(&output, "it's"), pairs(&[("a", "x")]));
}

#[test]
fn table_name_that_reads_like_a_statement_is_one_table() {
    let name = "T' (a); CREATE TABLE 'U";
    let source = source_with(name, &[("a", "\"x\"")]);
    let output = memory();
    let mut destination = Destination::new(&output);
    let summary = process_table(&source, &mut destination, name, &mut Silent).unwrap();
    assert_eq!(summary.rows, 1);
    assert_eq!(tables_of(&output), vec![name.to_string()]);
    assert_eq!(rows_of(&output, name), pairs(&[("a", "x")]));
}

#[test]
fn row_that_is_not_json_stops_the_table() {
    let source = source_with("T", &[("a", "\"x\""), ("bad", "not-json"), ("c", "\"z\"")]);
    let output = memory();
    let mut destination = Destination::new(&output);
    match process_table(&source, &mut destination, "T", &mut Silent) {
        Err(error) => assert_eq!(
            error,
            MigrateError::MalformedInput { table: "T".to_string(), id: "bad".to_string() }
        ),
        Ok(_) => panic!("a value that is not JSON was migrated"),
    }
    assert_eq!(rows_of(&output, "T"), pairs(&[("a", "x")]));
}

#[test]
fn failure_leaves_later_tables_untouched() {
    let source = memory();
    add_table(&source, "first", &[("a", "\"x\"")]);
    add_table(&source, "second", &[("b", "\"y\""), ("bad", "not-json")]);
    add_table(&source, "third", &[("c", "\"z\"")]);
    let output = memory();
    let mut destination = Destination::new(&output);
    match migrate(&source, &mut destination, &mut Silent) {
        Err(error) => assert_eq!(
            error,
            MigrateError::MalformedInput { table: "second".to_string(), id: "bad".to_string() }
        ),
        Ok(_) => panic!("a value that is not JSON was migrated"),
    }
    assert_eq!(tables_of(&output), vec!["first".to_string(), "second".to_string()]);
    assert_eq!(rows_of(&output, "first"), pairs(&[("a", "x")]));
    assert_eq!(rows_of(&output, "second"), pairs(&[("b", "y")]));
}

#[test]
fn existing_destination_table_is_a_schema_error() {
    let source = source_with("T", &[("a", "\"x\"")]);
    let output = memory();
    let mut destination = Destination::new(&output);
    output.execute("CREATE TABLE T (other TEXT)").unwrap();
    match process_table(&source, &mut destination, "T", &mut Silent) {
        Err(MigrateError::SchemaCreation { table, .. }) => assert_eq!(table, "T"),
        other => panic!("expected a schema error, got {:?}", other.map(|summary| summary.rows)),
    }
    assert_eq!(count_of(&output, "T"), 0);
}

#[test]
fn missing_source_table_is_a_read_error() {
    let source = memory();
    let output = memory();
    let mut destination = Destination::new(&output);
    match process_table(&source, &mut destination, "T", &mut Silent) {
        Err(MigrateError::Read { table, .. }) => assert_eq!(table, "T"),
        other => panic!("expected a read error, got {:?}", other.map(|summary| summary.rows)),
    }
    assert_eq!(tables_of(&output), vec!["T".to_string()]);
}

#[test]
fn value_that_is_not_text_is_a_read_error() {
    let source = memory();
    source.execute("CREATE TABLE T (ID TEXT, json TEXT)").unwrap();
    source.execute("INSERT INTO T (ID, json) VALUES ('a', '\"x\"')").unwrap();
    source.execute("INSERT INTO T (ID, json) VALUES ('b', NULL)").unwrap();
    source.execute("INSERT INTO T (ID, json) VALUES ('c', '\"z\"')").unwrap();
    let output = memory();
    let mut destination = Destination::new(&output);
    match process_table(&source, &mut destination, "T", &mut Silent) {
        Err(MigrateError::Read { table, .. }) => assert_eq!(table, "T"),
        other => panic!("expected a read error, got {:?}", other.map(|summary| summary.rows)),
    }
    assert_eq!(rows_of(&output, "T"), pairs(&[("a", "x")]));
}

#[test]
fn end_of_the_rows_ends_the_table() {
    let output = memory();
    let mut destination = Destination::new(&output);
    destination.create_table("T").unwrap();
    assert_eq!(migrate_row("T", &mut destination, None, &mut Silent), Ok(Progress::Finished));
    assert_eq!(count_of(&output, "T"), 0);
}

#[test]
fn row_from_the_cursor_is_written_and_the_cursor_goes_on() {
    let output = memory();
    let mut destination = Destination::new(&output);
    destination.create_table("T").unwrap();
    let first = Some(Ok(columns("a", "\"x\"")));
    assert_eq!(migrate_row("T", &mut destination, first, &mut Silent), Ok(Progress::Going));
    let second = Some(Ok(columns("b", "[1]")));
    assert_eq!(migrate_row("T", &mut destination, second, &mut Silent), Ok(Progress::Going));
    assert_eq!(rows_of(&output, "T"), pairs(&[("a", "x"), ("b", "[1]")]));
}

#[test]
fn failed_step_of_the_cursor_is_a_read_error() {
    let output = memory();
    let mut destination = Destination::new(&output);
    destination.create_table("T").unwrap();
    let first = Some(Ok(columns("a", "\"x\"")));
    assert_eq!(migrate_row("T", &mut destination, first, &mut Silent), Ok(Progress::Going));
    assert_eq!(
        migrate_row("T", &mut destination, Some(Err(engine_error())), &mut Silent),
        Err(MigrateError::Read {
            table: "T".to_string(),
            detail: "disk I/O error (code 10)".to_string()
        })
    );
    assert_eq!(rows_of(&output, "T"), pairs(&[("a", "x")]));
}

#[test]
fn row_without_text_is_a_read_error() {
    let output = memory();
    let mut destination = Destination::new(&output);
    destination.create_table("T").unwrap();
    for answer in [
        vec![],
        vec![Some("a".to_string())],
        vec![Some("a".to_string()), None],
        vec![None, Some("\"x\"".to_string())],
    ] {
        match migrate_row("T", &mut destination, Some(Ok(answer)), &mut Silent) {
            Err(MigrateError::Read { table, .. }) => assert_eq!(table, "T"),
            other => panic!("expected a read error, got {:?}", other),
        }
    }
    assert_eq!(count_of(&output, "T"), 0);
}

#[test]
fn row_that_is_not_json_is_malformed_input() {
    let output = memory();
    let mut destination = Destination::new(&output);
    destination.create_table("T").unwrap();
    let answer = Some(Ok(columns("bad", "not-json")));
    assert_eq!(
        migrate_row("T", &mut destination, answer, &mut Silent),
        Err(MigrateError::MalformedInput { table: "T".to_string(), id: "bad".to_string() })
    );
    assert_eq!(count_of(&output, "T"), 0);
}

#[test]
fn row_that_the_destination_refuses_is_a_write_error() {
    let output = memory();
    let mut destination = Destination::new(&output);
    let answer = Some(Ok(columns("a", "\"x\"")));
    match migrate_row("T", &mut destination, answer, &mut Silent) {
        Err(MigrateError::Write { table, id, .. }) => {
            assert_eq!(table, "T");
            assert_eq!(id, "a");
        }
        other => panic!("expected a write error, got {:?}", other),
    }
}

#[test]
fn insertion_is_accepted_unless_its_step_failed() {
    assert!(accepted(None).is_ok());
    assert!(accepted(Some(Ok(vec![]))).is_ok());
    match accepted(Some(Err(engine_error()))) {
        Err(error) => {
            assert_eq!(error.code, Some(10));
            assert_eq!(error.message, Some("disk I/O error".to_string()));
        }
        Ok(()) => panic!("a failed step was taken for an accepted row"),
    }
}

#[test]
fn insert_row_appends_to_the_table() {
    let output = memory();
    let mut destination = Destination::new(&output);
    destination.create_table("T").unwrap();
    let row = NormalizedRow { id: "a".to_string(), value: "x".to_string() };
    destination.insert_row("T", &row).unwrap();
    destination.insert_row("T", &row).unwrap();
    let odd = NormalizedRow { id: "o'k".to_string(), value: "a'); --".to_string() };
    destination.insert_row("T", &odd).unwrap();
    assert_eq!(rows_of(&output, "T"), pairs(&[("a", "x"), ("a", "x"), ("o'k", "a'); --")]));
}

#[test]
fn insert_row_without_table_is_a_write_error() {
    let output = memory();
    let mut destination = Destination::new(&output);
    let row = NormalizedRow { id: "a".to_string(), value: "x".to_string() };
    match destination.insert_row("T", &row) {
        Err(MigrateError::Write { table, id, .. }) => {
            assert_eq!(table, "T");
            assert_eq!(id, "a");
        }
        other => panic!("expected a write error, got {:?}", other),
    }
}

#[test]
fn create_table_twice_is_a_schema_error() {
    let output = memory();
    let mut destination = Destination::new(&output);
    assert_eq!(destination.create_table("T"), Ok(()));
    match destination.create_table("T") {
        Err(error) => assert_eq!(error.kind(), ErrorKind::SchemaCreation),
        Ok(()) => panic!("a table was created twice"),
    }
}

#[test]
fn every_table_keeps_its_row_count() {
    let source = memory();
    add_table(&source, "one", &[("a", "\"x\"")]);
    add_table(&source, "none", &[]);
    add_table(&source, "three", &[("a", "\"1\""), ("b", "\"\\\"2\\\"\""), ("c", "3")]);
    let output = memory();
    let mut destination = Destination::new(&output);
    let summaries = migrate(&source, &mut destination, &mut Silent).unwrap();
    let counted: Vec<(String, usize)> =
        summaries.iter().map(|summary| (summary.table.clone(), summary.rows)).collect();
    assert_eq!(
        counted,
        vec![("one".to_string(), 1), ("none".to_string(), 0), ("three".to_string(), 3)]
    );
    for (table, rows) in counted {
        assert_eq!(rows_of(&source, &table).len(), rows);
        assert_eq!(rows_of(&output, &table).len(), rows);
    }
    assert_eq!(rows_of(&output, "three"), pairs(&[("a", "1"), ("b", "2"), ("c", "3")]));
}

#[test]
fn destination_has_the_user_tables_of_the_source() {
    let source = memory();
    add_table(&source, "b", &[("a", "\"x\"")]);
    add_table(&source, "a", &[]);
    add_table(&source, "sqlitex", &[("s", "\"t\"")]);
    source
        .execute("CREATE TABLE counted (n INTEGER PRIMARY KEY AUTOINCREMENT, ID TEXT, json TEXT)")
        .unwrap();
    source.execute("INSERT INTO counted (ID, json) VALUES ('k', '\"v\"')").unwrap();
    source.execute("CREATE VIEW V AS SELECT ID, json FROM b").unwrap();
    let output = memory();
    let mut destination = Destination::new(&output);
    migrate(&source, &mut destination, &mut Silent).unwrap();
    assert_eq!(
        tables_of(&output),
        vec!["a".to_string(), "b".to_string(), "counted".to_string(), "sqlitex".to_string()]
    );
    assert_eq!(rows_of(&output, "counted"), pairs(&[("k", "v")]));
    assert_eq!(rows_of(&output, "sqlitex"), pairs(&[("s", "t")]));
}

#[test]
fn migrate_tables_takes_the_tables_in_order() {
    let source = memory();
    add_table(&source, "x", &[("a", "\"1\"")]);
    add_table(&source, "y", &[("b", "\"2\""), ("c", "\"3\"")]);
    let output = memory();
    let mut destination = Destination::new(&output);
    let tables = vec!["y".to_string(), "x".to_string()];
    let summaries = migrate_tables(&source, &mut destination, &tables, &mut Silent).unwrap();
    assert_eq!(summaries.len(), 2);
    assert_eq!(summaries[0].table, "y");
    assert_eq!(summaries[0].rows, 2);
    assert_eq!(summaries[1].table, "x");
    assert_eq!(summaries[1].rows, 1);
}

#[test]
fn migrate_tables_with_no_tables_does_nothing() {
    let source = memory();
    let output = memory();
    let mut destination = Destination::new(&output);
    let summaries = migrate_tables(&source, &mut destination, &vec![], &mut Silent).unwrap();
    assert!(summaries.is_empty());
    assert_eq!(tables_of(&output), Vec::<String>::new());
}

#[test]
fn reporter_hears_of_tables_and_rows_as_they_begin() {
    let source = memory();
    add_table(&source, "T", &[("a", "\"x\""), ("bad", "not-json"), ("c", "\"z\"")]);
    add_table(&source, "U", &[]);
    let output = memory();
    let mut destination = Destination::new(&output);
    let mut recorder = Recorder(vec![]);
    assert!(migrate(&source, &mut destination, &mut recorder).is_err());
    assert_eq!(
        recorder.0,
        vec![
            "ListingTables".to_string(),
            "TablesFound { tables: [\"T\", \"U\"] }".to_string(),
            "TableStarted { table: \"T\" }".to_string(),
            "RowStarted { id: \"a\" }".to_string(),
            "RowStarted { id: \"bad\" }".to_string(),
        ]
    );
}

#[test]
fn answer_to_opening_the_source_is_handed_on() {
    assert!(source_opened(Ok(memory())).is_ok());
    match source_opened(Err(engine_error())) {
        Err(MigrateError::SourceUnopenable { detail }) => {
            assert_eq!(detail, "disk I/O error (code 10)")
        }
        other => panic!("expected a connection error, got {:?}", other.map(|_| ())),
    }
}

#[test]
fn answer_to_opening_the_destination_is_handed_on() {
    assert!(destination_opened(Ok(memory())).is_ok());
    match destination_opened(Err(engine_error())) {
        Err(MigrateError::DestinationUncreatable { detail }) => {
            assert_eq!(detail, "disk I/O error (code 10)")
        }
        other => panic!("expected a connection error, got {:?}", other.map(|_| ())),
    }
}

#[test]
fn same_path_stops_the_run() {
    let path = format!("/tmp/json_migrate_{}_same.db", stamp());
    let mut recorder = Recorder(vec![]);
    match run(&path, &path, &mut recorder).outcome {
        Err(error) => assert_eq!(error, MigrateError::SamePath),
        Ok(_) => panic!("a database was migrated onto itself"),
    }
    assert_eq!(recorder.0, Vec::<String>::new());
    assert!(is_missing(&path));
}

#[test]
fn existing_destination_stops_the_run() {
    match run(":memory:", ".", &mut Silent).outcome {
        Err(error) => assert_eq!(error, MigrateError::DestinationExists),
        Ok(_) => panic!("an existing destination was overwritten"),
    }
}

#[test]
fn source_that_cannot_be_opened_stops_the_run() {
    match run("/no_such_directory_here/in.db", "/no_such_directory_here/out.db", &mut Silent)
        .outcome
    {
        Err(MigrateError::SourceUnopenable { .. }) => {}
        other => panic!("expected a connection error, got {:?}", other.map(|done| done.len())),
    }
}

#[test]
fn missing_source_is_refused_and_not_made() {
    let input = format!("/tmp/json_migrate_{}_missing.db", stamp());
    let output = format!("/tmp/json_migrate_{}_unmade.db", stamp());
    match run(&input, &output, &mut Silent).outcome {
        Err(MigrateError::SourceUnopenable { .. }) => {}
        other => panic!("expected a connection error, got {:?}", other.map(|done| done.len())),
    }
    assert!(is_missing(&input));
    assert!(is_missing(&output));
}

#[test]
fn destination_that_cannot_be_created_stops_the_run() {
    match run(":memory:", "/no_such_directory_here/out.db", &mut Silent).outcome {
        Err(MigrateError::DestinationUncreatable { .. }) => {}
        other => panic!("expected a connection error, got {:?}", other.map(|done| done.len())),
    }
}

#[test]
fn run_migrates_a_file_into_a_new_file() {
    let input = &format!("/tmp/json_migrate_{}_input.db", stamp());
    let output = &format!("/tmp/json_migrate_{}_output.db", stamp());
    {
        let source = sqlite::open(input).unwrap();
        add_table(&source, "T", &[("a", "\"x\""), ("b", "\"\\\"y\\\"\"")]);
        add_table(&source, "U", &[]);
    }
    let mut recorder = Recorder(vec![]);
    let summaries = run(input, output, &mut recorder).outcome.unwrap();
    let counted: Vec<(String, usize)> =
        summaries.iter().map(|summary| (summary.table.clone(), summary.rows)).collect();
    assert_eq!(counted, vec![("T".to_string(), 2), ("U".to_string(), 0)]);
    assert_eq!(
        recorder.0,
        vec![
            format!("OpeningSource {{ path: {:?} }}", input),
            "SourceOpened".to_string(),
            format!("CreatingDestination {{ path: {:?} }}", output),
            "ListingTables".to_string(),
            "TablesFound { tables: [\"T\", \"U\"] }".to_string(),
            "TableStarted { table: \"T\" }".to_string(),
            "RowStarted { id: \"a\" }".to_string(),
            "RowStarted { id: \"b\" }".to_string(),
            "TableStarted { table: \"U\" }".to_string(),
        ]
    );
    {
        let written = sqlite::open(output).unwrap();
        assert_eq!(tables_of(&written), vec!["T".to_string(), "U".to_string()]);
        assert_eq!(rows_of(&written, "T"), pairs(&[("a", "x"), ("b", "y")]));
        assert_eq!(rows_of(&written, "U"), pairs(&[]));
    }
    match run(input, output, &mut Silent).outcome {
        Err(error) => assert_eq!(error, MigrateError::DestinationExists),
        Ok(_) => panic!("an existing destination was overwritten"),
    }
    {
        let kept = sqlite::open(output).unwrap();
        assert_eq!(rows_of(&kept, "T"), pairs(&[("a", "x"), ("b", "y")]));
    }
}
