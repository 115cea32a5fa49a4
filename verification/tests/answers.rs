use record_store::error::{Fault, StorageError};
use record_store::record::Record;
use record_store::schema::{create_command, insert_command, select_command};
use record_store::stamp::Timestamp;
use record_store::store::{inserted_id, records_from_rows, schema_outcome};

fn row(id: i64, text: &str, stamp: &str) -> Result<(i64, String, String), rusqlite::Error> {
    Ok((id, text.to_string(), stamp.to_string()))
}

#[test]
fn no_rows_give_no_records() {
    let records = records_from_rows(Vec::new()).expect("nothing failed");
    assert!(records.is_empty());
}

#[test]
fn rows_become_records_in_order() {
    let rows = vec![row(7, "b", "t2"), row(3, "a", "t1"), row(9, "", "")];
    let records = records_from_rows(rows).expect("every row was read");
    assert_eq!(
        records,
        vec![
            Record { id: 7, text: "b".to_string(), created_at: "t2".to_string() },
            Record { id: 3, text: "a".to_string(), created_at: "t1".to_string() },
            Record { id: 9, text: String::new(), created_at: String::new() },
        ]
    );
}

#[test]
fn one_unreadable_row_fails_the_whole_fetch() {
    let rows = vec![
        row(1, "a", "t1"),
        Err(rusqlite::Error::InvalidColumnIndex(5)),
        row(2, "b", "t2"),
        Err(rusqlite::Error::QueryReturnedNoRows),
    ];
    let failure = records_from_rows(rows).expect_err("a row could not be read");
    assert_eq!(failure.kind(), Fault::Read);
    assert_eq!(failure.detail, rusqlite::Error::InvalidColumnIndex(5).to_string());
}

#[test]
fn an_unreadable_last_row_fails_the_whole_fetch() {
    let rows = vec![row(1, "a", "t1"), Err(rusqlite::Error::InvalidQuery)];
    let failure = records_from_rows(rows).expect_err("a row could not be read");
    assert_eq!(failure.kind(), Fault::Read);
    assert_eq!(failure.detail, rusqlite::Error::InvalidQuery.to_string());
}

#[test]
fn an_insert_of_one_row_yields_its_rowid() {
    assert_eq!(inserted_id(1, 42).expect("one row was added"), 42);
    assert_eq!(inserted_id(1, -5).expect("one row was added"), -5);
    assert_eq!(inserted_id(1, i64::MAX).expect("one row was added"), i64::MAX);
}

#[test]
fn an_insert_of_no_row_or_of_many_is_a_write_error() {
    for changed in [0usize, 2, 3, usize::MAX] {
        let failure = inserted_id(changed, 42).expect_err("not exactly one row");
        assert_eq!(failure.kind(), Fault::Write);
        assert_eq!(failure.detail, "the insert did not add exactly one row");
        assert_eq!(
            failure.message(),
            "failed to save note to database: the insert did not add exactly one row"
        );
    }
}

#[test]
fn a_schema_statement_that_ran_is_done_whatever_it_changed() {
    assert!(schema_outcome(Ok(0)).is_ok());
    assert!(schema_outcome(Ok(1)).is_ok());
    assert!(schema_outcome(Ok(usize::MAX)).is_ok());
}

#[test]
fn a_schema_statement_that_failed_is_a_create_error() {
    let failure = schema_outcome(Err(rusqlite::Error::InvalidQuery)).expect_err("it failed");
    assert_eq!(failure.kind(), Fault::Create);
    assert_eq!(failure.detail, rusqlite::Error::InvalidQuery.to_string());
}

#[test]
fn the_statements_have_the_expected_text() {
    let create = create_command();
    assert_eq!(
        create.sql,
        "CREATE TABLE IF NOT EXISTS entries (id INTEGER PRIMARY KEY, quark TEXT, timestamp TEXT)"
    );
    assert!(create.params.is_empty());
    let select = select_command();
    assert_eq!(select.sql, "SELECT id, quark, timestamp FROM entries");
    assert!(select.params.is_empty());
    let again = create_command();
    assert_eq!(again.sql, create.sql);
    assert_eq!(again.params, create.params);
}

#[test]
fn the_insert_statement_binds_text_then_timestamp() {
    let created_at = Timestamp::parse("2024-05-01T10:00:00+00:00").expect("it is a timestamp");
    let stmt = insert_command("hello", &created_at);
    assert_eq!(stmt.sql, "INSERT INTO entries (quark, timestamp) VALUES (?1, ?2)");
    assert_eq!(
        stmt.params,
        vec!["hello".to_string(), "2024-05-01T10:00:00+00:00".to_string()]
    );
}

#[test]
fn an_error_is_built_from_its_cause() {
    let e = StorageError::from_cause(Fault::Read, &rusqlite::Error::QueryReturnedNoRows);
    assert_eq!(e.kind(), Fault::Read);
    assert_eq!(e.detail, rusqlite::Error::QueryReturnedNoRows.to_string());
    assert_eq!(
        e.message(),
        format!("failed to fetch entries: {}", rusqlite::Error::QueryReturnedNoRows)
    );
}

#[test]
fn each_fault_has_its_label() {
    assert_eq!(Fault::Open.label(), "failed to open db");
    assert_eq!(Fault::Create.label(), "failed to create table");
    assert_eq!(Fault::Write.label(), "failed to save note to database");
    assert_eq!(Fault::Read.label(), "failed to fetch entries");
}

#[test]
fn a_message_is_label_colon_detail() {
    let e = StorageError::new(Fault::Open, "unable to open database file".to_string());
    assert_eq!(e.message(), "failed to open db: unable to open database file");
    let e = StorageError::new(Fault::Create, String::new());
    assert_eq!(e.message(), "failed to create table: ");
}

#[test]
fn a_record_is_shown_as_timestamp_dash_text() {
    let r = Record { id: 1, text: "hello".to_string(), created_at: "2024-05-01T10:00:00+00:00".to_string() };
    assert_eq!(r.display_line(), "2024-05-01T10:00:00+00:00 - hello");
    let empty = Record { id: 2, text: String::new(), created_at: String::new() };
    assert_eq!(empty.display_line(), " - ");
}

#[test]
fn a_record_takes_its_fields_from_the_row() {
    let r = Record::from_row((12, "text".to_string(), "stamp".to_string()));
    assert_eq!(r, Record { id: 12, text: "text".to_string(), created_at: "stamp".to_string() });
}
