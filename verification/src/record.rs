//! One stored entry and its mathematical view.

use vstd::prelude::*;
use vstd::string::StringExecFns;
use crate::sqlite::RawRow;

verus! {

/// The id of a stored entry: the row id that the database gave it.
pub type RecordId = i64;

/// One persisted entry: the id that storage gave it, the user's text, and the
/// time of its creation as a string.
#[derive(Debug, PartialEq, Eq)]
pub struct Record {
    pub id: RecordId,
    pub text: String,
    pub created_at: String,
}

/// What a record is, in contracts.
pub ghost struct RecordView {
    pub id: int,
    pub text: Seq<char>,
    pub created_at: Seq<char>,
}

impl View for Record {
    type V = RecordView;

    open spec fn view(&self) -> RecordView {
        RecordView { id: self.id as int, text: self.text@, created_at: self.created_at@ }
    }
}

/// The record that a row of the entries table stands for.
pub open spec fn row_view(row: RawRow) -> RecordView {
    RecordView { id: row.0 as int, text: row.1@, created_at: row.2@ }
}

impl RecordView {
    /// The line that shows this record in a list: timestamp, " - ", text.
    pub open spec fn display_line(self) -> Seq<char> {
        self.created_at + " - "@ + self.text
    }
}

impl Clone for Record {
    /// A second record with the same id, text and timestamp.
    fn clone(&self) -> (copy: Record)
        ensures
            copy == *self,
    {
        Record { id: self.id, text: self.text.clone(), created_at: self.created_at.clone() }
    }
}

impl Record {
    /// The record that the row `row` stands for, column by column.
    pub fn from_row(row: RawRow) -> (record: Record)
        ensures
            record@ == row_view(row),
    {
        Record { id: row.0, text: row.1, created_at: row.2 }
    }

    /// The line that shows this record in a list: timestamp, " - ", text.
    pub fn display_line(&self) -> (line: String)
        ensures
            line@ == self@.display_line(),
    {
        let mut line = String::from_str(self.created_at.as_str());
        line.append(" - ");
        line.append(self.text.as_str());
        line
    }
}

} // verus!
