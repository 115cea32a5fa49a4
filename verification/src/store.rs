//! The record store: one database connection and the three operations on it.
//!
//! Each operation hands one statement to the database and then decides what the
//! answer means. The deciding functions take the answer as an argument, so their
//! contracts hold of every answer a database can give. What the database holds
//! before and after a call is its own affair and that of the file behind it:
//! the contracts of the operations say which error a refusal becomes, and
//! nothing of the rows.

use vstd::prelude::*;
use vstd::string::StringExecFns;
use crate::error::{describes, Fault, StorageError};
use crate::record::{row_view, Record, RecordId};
use crate::schema::{create_command, insert_command, select_command};
use crate::stamp::{clock_detail, Timestamp};
use crate::sqlite::{execute, last_insert_rowid, open_connection, prepare, query_rows, RawRow};

verus! {

/// What the database answers to a query: a row, or the failure to read one.
pub type RowOutcome = Result<RawRow, rusqlite::Error>;

/// Row `k` is the first of `rows` that could not be read.
pub open spec fn first_failure(rows: Seq<RowOutcome>, k: int) -> bool {
    &&& 0 <= k < rows.len()
    &&& rows[k] is Err
    &&& forall|j: int| 0 <= j < k ==> rows[j] is Ok
}

/// Every row of `rows` could be read.
pub open spec fn all_read(rows: Seq<RowOutcome>) -> bool {
    forall|i: int| 0 <= i < rows.len() ==> rows[i] is Ok
}

/// `records` holds one record for each row of `rows`, in the same order and
/// with the same id, text and timestamp.
pub open spec fn records_match(records: Seq<Record>, rows: Seq<RowOutcome>) -> bool {
    &&& records.len() == rows.len()
    &&& forall|i: int| 0 <= i < rows.len() ==> rows[i] is Ok && records[i]@ == row_view(rows[i]->Ok_0)
}

/// Words of the write error for an insert that did not add exactly one row.
pub open spec fn row_count_detail() -> Seq<char> {
    "the insert did not add exactly one row"@
}

/// What creating the schema came to: done whenever the statement ran, whatever
/// it changed; a create error that describes the cause otherwise.
pub fn schema_outcome(answer: Result<usize, rusqlite::Error>) -> (outcome: Result<(), StorageError>)
    ensures
        outcome is Ok <==> answer is Ok,
        outcome matches Err(e) ==> e.kind == Fault::Create && describes(&answer->Err_0, e.detail),
{
    match answer {
        Ok(_) => Ok(()),
        Err(cause) => Err(StorageError::from_cause(Fault::Create, &cause)),
    }
}

/// What an insert that ran came to: the new entry's id is `rowid`, the row id
/// that the database reports, if and only if the statement added exactly one
/// row; a write error otherwise.
pub fn inserted_id(changed: usize, rowid: i64) -> (outcome: Result<RecordId, StorageError>)
    ensures
        outcome is Ok <==> changed == 1,
        outcome matches Ok(id) ==> id == rowid,
        outcome matches Err(e) ==> e.kind == Fault::Write && e.detail@ == row_count_detail(),
{
    if changed == 1 {
        Ok(rowid)
    } else {
        Err(StorageError::new(Fault::Write, String::from_str("the insert did not add exactly one row")))
    }
}

/// What fetching came to, all or nothing: one record per row, in the order of
/// the rows, if and only if every row could be read; otherwise a read error that
/// describes the first row that could not, and no record at all.
pub fn records_from_rows(rows: Vec<RowOutcome>) -> (outcome: Result<Vec<Record>, StorageError>)
    ensures
        outcome is Ok <==> all_read(rows@),
        outcome matches Ok(records) ==> records_match(records@, rows@),
        rows@.len() == 0 ==> (outcome matches Ok(records) && records@.len() == 0),
        outcome matches Err(e) ==> e.kind == Fault::Read && exists|k: int|
            first_failure(rows@, k) && describes(&rows@[k]->Err_0, e.detail),
{
    let ghost all = rows@;
    let mut records: Vec<Record> = Vec::new();
    for row in iter: rows.into_iter()
        invariant
            iter.seq() == all,
            records@.len() == iter.index(),
            forall|i: int| 0 <= i < iter.index() ==> all[i] is Ok && records@[i]@ == row_view(all[i]->Ok_0),
    {
        match row {
            Ok(columns) => {
                records.push(Record::from_row(columns));
            },
            Err(cause) => {
                assert(first_failure(all, iter.index() as int));
                return Err(StorageError::from_cause(Fault::Read, &cause));
            },
        }
    }
    Ok(records)
}

/// The store: it owns one connection to the database that holds the entries.
pub struct RecordStore {
    conn: rusqlite::Connection,
}

impl RecordStore {
    /// Opens the database at `path`, creating the file if there is none. The
    /// name ":memory:" opens a database that lives in memory only. A path that
    /// holds a NUL character names no database and is refused; whether any
    /// other path opens is for the database to say. Every refusal is an open
    /// error.
    pub fn open(path: &str) -> (outcome: Result<RecordStore, StorageError>)
        ensures
            path@.contains('\0') ==> outcome is Err,
            outcome matches Err(e) ==> e.kind == Fault::Open && e.quotes_database(),
    {
        match open_connection(path) {
            Ok(conn) => Ok(RecordStore { conn }),
            Err(cause) => Err(StorageError::from_cause(Fault::Open, &cause)),
        }
    }

    /// Opens the database at `path` and makes sure that the entries table
    /// exists in it: [`RecordStore::open`], then [`RecordStore::initialize`].
    /// A path that holds a NUL character is refused with an open error before
    /// anything is created.
    pub fn setup(path: &str) -> (outcome: Result<RecordStore, StorageError>)
        ensures
            path@.contains('\0') ==> (outcome matches Err(e) && e.kind == Fault::Open),
            outcome matches Err(e) ==> (e.kind == Fault::Open || e.kind == Fault::Create)
                && e.quotes_database(),
    {
        match RecordStore::open(path) {
            Ok(store) => match store.initialize() {
                Ok(()) => Ok(store),
                Err(e) => Err(e),
            },
            Err(e) => Err(e),
        }
    }

    /// Makes sure that the entries table exists: runs the statement of
    /// [`create_command`], the same at every call, and reports a create error,
    /// in the database's own words, if the database refuses it.
    pub fn initialize(&self) -> (outcome: Result<(), StorageError>)
        ensures
            outcome matches Err(e) ==> e.kind == Fault::Create && e.quotes_database(),
    {
        let command = create_command();
        schema_outcome(execute(&self.conn, command.sql, &command.params))
    }

    /// Adds one entry with the text `text`, created now: reads the clock at
    /// this call as [`Timestamp::now`] does and goes on as
    /// [`RecordStore::insert_at`] with that timestamp. Every failure is a write
    /// error: of the clock, with the words of [`clock_detail`], or of the
    /// insert.
    pub fn insert(&self, text: &str) -> (outcome: Result<RecordId, StorageError>)
        ensures
            outcome matches Err(e) ==> e.kind == Fault::Write && (e.detail@ == clock_detail()
                || e.detail@ == row_count_detail() || e.quotes_database()),
    {
        match Timestamp::now() {
            Ok(stamp) => self.insert_at(text, &stamp),
            Err(e) => Err(e),
        }
    }

    /// Adds one entry with the text `text` and the creation time `created_at`:
    /// runs the statement of [`insert_command`] and returns the id that the
    /// database gave the new row, as [`inserted_id`] decides. Every failure is
    /// a write error: in the database's own words if it refuses the statement,
    /// with the words of [`row_count_detail`] if it added no row or many.
    pub fn insert_at(&self, text: &str, created_at: &Timestamp) -> (outcome: Result<RecordId, StorageError>)
        ensures
            outcome matches Err(e) ==> e.kind == Fault::Write && (e.detail@ == row_count_detail()
                || e.quotes_database()),
    {
        let command = insert_command(text, created_at);
        match execute(&self.conn, command.sql, &command.params) {
            Ok(changed) => inserted_id(changed, last_insert_rowid(&self.conn)),
            Err(cause) => Err(StorageError::from_cause(Fault::Write, &cause)),
        }
    }

    /// Fetches every stored entry, in the order in which the database hands
    /// them out: prepares and runs the query of [`select_command`] and turns its
    /// rows into records as [`records_from_rows`] decides. A read error, and no
    /// record, if the query cannot be prepared or run or if any row of it fails.
    pub fn list_all(&self) -> (outcome: Result<Vec<Record>, StorageError>)
        ensures
            outcome matches Err(e) ==> e.kind == Fault::Read && e.quotes_database(),
    {
        let query = select_command();
        let mut stmt = match prepare(&self.conn, query.sql) {
            Ok(stmt) => stmt,
            Err(cause) => {
                return Err(StorageError::from_cause(Fault::Read, &cause));
            },
        };
        match query_rows(&mut stmt, &query.params) {
            Ok(rows) => records_from_rows(rows),
            Err(cause) => Err(StorageError::from_cause(Fault::Read, &cause)),
        }
    }
}

} // verus!
