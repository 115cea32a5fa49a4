//! The one failure kind of the store.

use vstd::prelude::*;
use vstd::string::StringExecFns;

verus! {

/// The operation during which storage failed.
#[derive(Clone, Copy, Debug, PartialEq, Eq, Structural)]
pub enum Fault {
    /// The database could not be opened.
    Open,
    /// The schema could not be created.
    Create,
    /// An entry could not be written.
    Write,
    /// The entries could not be read.
    Read,
}

impl Fault {
    /// The words that name this fault in a status line.
    pub open spec fn label_text(self) -> Seq<char> {
        match self {
            Fault::Open => "failed to open db"@,
            Fault::Create => "failed to create table"@,
            Fault::Write => "failed to save note to database"@,
            Fault::Read => "failed to fetch entries"@,
        }
    }

    /// The words that name this fault in a status line.
    pub fn label(self) -> (words: &'static str)
        ensures
            words@ == self.label_text(),
    {
        match self {
            Fault::Open => "failed to open db",
            Fault::Create => "failed to create table",
            Fault::Write => "failed to save note to database",
            Fault::Read => "failed to fetch entries",
        }
    }
}

/// `detail` is what `cause` says of itself when it is displayed.
pub open spec fn describes(cause: &rusqlite::Error, detail: String) -> bool {
    vstd::string::to_string_from_display_ensures::<rusqlite::Error>(cause, detail)
}

/// A failed storage operation: which one, and what the database said.
#[derive(Debug)]
pub struct StorageError {
    pub kind: Fault,
    pub detail: String,
}

impl StorageError {
    /// The detail is what some failure of the database says of itself.
    pub open spec fn quotes_database(self) -> bool {
        exists|cause: rusqlite::Error| describes(&cause, self.detail)
    }

    /// The status line of this error: the fault's label, a colon, the detail.
    pub open spec fn message_text(self) -> Seq<char> {
        self.kind.label_text() + ": "@ + self.detail@
    }

    /// Builds the error of the operation `kind` with the given detail.
    pub fn new(kind: Fault, detail: String) -> (e: StorageError)
        ensures
            e.kind == kind,
            e.detail == detail,
    {
        StorageError { kind, detail }
    }

    /// The error of the operation `kind` that failed because of `cause`: its
    /// detail is what `cause` says of itself.
    pub fn from_cause(kind: Fault, cause: &rusqlite::Error) -> (e: StorageError)
        ensures
            e.kind == kind,
            describes(cause, e.detail),
            e.quotes_database(),
    {
        let e = StorageError { kind, detail: cause.to_string() };
        assert(describes(cause, e.detail));
        e
    }

    /// The operation that failed.
    pub fn kind(&self) -> (k: Fault)
        ensures
            k == self.kind,
    {
        self.kind
    }

    /// A short line fit for display: the fault's label, a colon, the detail.
    pub fn message(&self) -> (line: String)
        ensures
            line@ == self.message_text(),
    {
        let mut line = String::from_str(self.kind.label());
        line.append(": ");
        line.append(self.detail.as_str());
        line
    }
}

} // verus!
