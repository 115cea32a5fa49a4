use record_store::error::Fault;
use record_store::record::Record;
use record_store::stamp::Timestamp;
use record_store::store::RecordStore;

fn stamp(text: &str) -> Timestamp {
    Timestamp::parse(text).expect("the text has the shape of a timestamp")
}

fn memory_store() -> RecordStore {
    let store = RecordStore::open(":memory:").expect("an in-memory database opens");
    store.initialize().expect("the schema is created");
    store
}

fn texts(records: &[Record]) -> Vec<String> {
    let mut all: Vec<String> = records.iter().map(|r| r.text.clone()).collect();
    all.sort();
    all
}

#[test]
fn fresh_store_lists_nothing() {
    let store = memory_store();
    let records = store.list_all().expect("the fetch succeeds");
    assert!(records.is_empty());
}

#[test]
fn insert_hello_then_list_returns_exactly_that_record() {
    let store = memory_store();
    let id = store.insert("hello").expect("the insert succeeds");
    let records = store.list_all().expect("the fetch succeeds");
    assert_eq!(records.len(), 1);
    assert_eq!(records[0].text, "hello");
    assert_eq!(records[0].id, id);
    assert!(!records[0].created_at.is_empty());
}

#[test]
fn insert_a_then_b_lists_two_records_with_distinct_ids() {
    let store = memory_store();
    let first = store.insert("a").expect("the first insert succeeds");
    let second = store.insert("b").expect("the second insert succeeds");
    assert_ne!(first, second);
    let records = store.list_all().expect("the fetch succeeds");
    assert_eq!(records.len(), 2);
    assert_ne!(records[0].id, records[1].id);
    assert_eq!(texts(&records), vec!["a".to_string(), "b".to_string()]);
    let of_a = records.iter().find(|r| r.text == "a").expect("a is listed");
    let of_b = records.iter().find(|r| r.text == "b").expect("b is listed");
    assert_eq!(of_a.id, first);
    assert_eq!(of_b.id, second);
}

#[test]
fn insert_into_read_only_storage_fails_and_keeps_the_records() {
    let writer = RecordStore::setup("file:/read_only_scenario?vfs=memdb")
        .expect("the shared database opens");
    let kept = writer
        .insert_at("kept", &stamp("2024-05-01T10:00:00+00:00"))
        .expect("the insert succeeds");
    let before = writer.list_all().expect("the fetch succeeds");
    assert_eq!(
        before,
        vec![Record {
            id: kept,
            text: "kept".to_string(),
            created_at: "2024-05-01T10:00:00+00:00".to_string(),
        }]
    );

    let reader = RecordStore::open("file:/read_only_scenario?vfs=memdb&mode=ro")
        .expect("the same database opens read-only");
    let failure = reader.insert("lost").expect_err("a read-only database takes no insert");
    assert_eq!(failure.kind(), Fault::Write);
    assert!(failure.message().starts_with("failed to save note to database: "));

    assert_eq!(reader.list_all().expect("the fetch still succeeds"), before);
    assert_eq!(writer.list_all().expect("the fetch still succeeds"), before);
}

#[test]
fn initialize_many_times_is_as_good_as_once() {
    let store = RecordStore::open(":memory:").expect("an in-memory database opens");
    store.initialize().expect("the first call creates the schema");
    let id = store.insert_at("kept", &stamp("2024-05-01T10:00:00+00:00")).expect("the insert succeeds");
    let once = store.list_all().expect("the fetch succeeds");
    for _ in 0..5 {
        store.initialize().expect("a repeated call succeeds");
        assert_eq!(store.list_all().expect("the fetch succeeds"), once);
    }
    assert_eq!(
        once,
        vec![Record {
            id,
            text: "kept".to_string(),
            created_at: "2024-05-01T10:00:00+00:00".to_string(),
        }]
    );
    let next = store.insert("more").expect("the store still takes inserts");
    assert_ne!(next, id);
}

#[test]
fn every_inserted_text_is_listed() {
    let store = memory_store();
    let inputs = ["", " ", "hello", "two\nlines", "quote ' and \" marks", "ünïcödé ✓", "a", "a"];
    for text in inputs {
        store.insert(text).expect("the insert succeeds");
        let records = store.list_all().expect("the fetch succeeds");
        assert!(records.iter().any(|r| r.text == text));
    }
    let records = store.list_all().expect("the fetch succeeds");
    assert_eq!(records.len(), inputs.len());
    let mut expected: Vec<String> = inputs.iter().map(|s| s.to_string()).collect();
    expected.sort();
    assert_eq!(texts(&records), expected);
}

#[test]
fn inserted_ids_never_repeat() {
    let store = memory_store();
    let mut ids: Vec<i64> = Vec::new();
    for n in 0..50 {
        let id = store.insert(&format!("entry {}", n)).expect("the insert succeeds");
        assert!(!ids.contains(&id));
        ids.push(id);
    }
    let records = store.list_all().expect("the fetch succeeds");
    let mut listed: Vec<i64> = records.iter().map(|r| r.id).collect();
    listed.sort();
    ids.sort();
    assert_eq!(listed, ids);
}

#[test]
fn insert_at_stores_the_given_timestamp() {
    let store = memory_store();
    let id = store.insert_at("note", &stamp("2024-05-01T10:00:00+02:00")).expect("the insert succeeds");
    let records = store.list_all().expect("the fetch succeeds");
    assert_eq!(
        records,
        vec![Record {
            id,
            text: "note".to_string(),
            created_at: "2024-05-01T10:00:00+02:00".to_string(),
        }]
    );
}

#[test]
fn insert_reads_the_clock_as_rfc3339() {
    let store = memory_store();
    let before = Timestamp::now().expect("the clock can be read");
    store.insert("note").expect("the insert succeeds");
    let after = Timestamp::now().expect("the clock can be read");
    let records = store.list_all().expect("the fetch succeeds");
    let written = &records[0].created_at;
    assert!(!written.is_empty());
    assert!(Timestamp::parse(written).is_some());
    assert!(written.ends_with("+00:00"));
    let bytes = written.as_bytes();
    assert_eq!(bytes[4], b'-');
    assert_eq!(bytes[7], b'-');
    assert_eq!(bytes[10], b'T');
    assert_eq!(bytes[13], b':');
    assert_eq!(bytes[16], b':');
    assert!(before.as_str()[..19] <= written[..19]);
    assert!(written[..19] <= after.as_str()[..19]);
}

#[test]
fn each_insert_reads_the_clock_anew() {
    let store = memory_store();
    store.insert("first").expect("the insert succeeds");
    let mut later = Timestamp::now().expect("the clock can be read");
    let first = store.list_all().expect("the fetch succeeds")[0].created_at.clone();
    while later.as_str() == first {
        later = Timestamp::now().expect("the clock can be read");
    }
    let second_id = store.insert("second").expect("the insert succeeds");
    let records = store.list_all().expect("the fetch succeeds");
    let second = records.iter().find(|r| r.id == second_id).expect("it is listed");
    assert_ne!(second.created_at, first);
}

#[test]
fn open_fails_where_no_file_can_be_made() {
    let failure = RecordStore::open("/no/such/directory/anywhere/entries.db")
        .err()
        .expect("the database cannot be opened");
    assert_eq!(failure.kind(), Fault::Open);
    assert!(failure.message().starts_with("failed to open db: "));
}

#[test]
fn a_path_with_a_nul_character_is_refused_with_an_open_error() {
    for path in ["\0", "bad\0name.db", ":memory:\0", "\0:memory:", "file:/nul_scenario?vfs=memdb\0"] {
        let failure = RecordStore::open(path).err().expect("no such database can be named");
        assert_eq!(failure.kind(), Fault::Open);
        assert!(failure.message().starts_with("failed to open db: "));
        let failure = RecordStore::setup(path).err().expect("no such database can be named");
        assert_eq!(failure.kind(), Fault::Open);
    }
}

#[test]
fn setup_fails_with_open_where_no_file_can_be_made() {
    let failure = RecordStore::setup("/no/such/directory/anywhere/entries.db")
        .err()
        .expect("the database cannot be opened");
    assert_eq!(failure.kind(), Fault::Open);
}

#[test]
fn initialize_fails_with_create_on_a_read_only_database_without_the_table() {
    let keeper = RecordStore::open("file:/empty_scenario?vfs=memdb")
        .expect("the shared database opens");
    let uri = "file:/empty_scenario?vfs=memdb&mode=ro";
    let reader = RecordStore::open(uri).expect("the same database opens read-only");
    let failure = reader.initialize().expect_err("a read-only database takes no table");
    assert_eq!(failure.kind(), Fault::Create);
    assert!(failure.message().starts_with("failed to create table: "));
    let failure = RecordStore::setup(uri).err().expect("setup fails in the same way");
    assert_eq!(failure.kind(), Fault::Create);
    drop(keeper);
}

#[test]
fn insert_before_initialize_fails_with_write() {
    let store = RecordStore::open(":memory:").expect("an in-memory database opens");
    let failure = store.insert("early").expect_err("there is no table yet");
    assert_eq!(failure.kind(), Fault::Write);
    assert!(failure.detail.contains("entries"));
}

#[test]
fn list_before_initialize_fails_with_read() {
    let store = RecordStore::open(":memory:").expect("an in-memory database opens");
    let failure = store.list_all().expect_err("there is no table yet");
    assert_eq!(failure.kind(), Fault::Read);
    assert!(failure.message().starts_with("failed to fetch entries: "));
}

#[test]
fn setup_opens_and_creates_in_one_step() {
    let store = RecordStore::setup(":memory:").expect("setup succeeds");
    assert!(store.list_all().expect("the fetch succeeds").is_empty());
    store.insert("x").expect("the insert succeeds");
    assert_eq!(store.list_all().expect("the fetch succeeds").len(), 1);
}
