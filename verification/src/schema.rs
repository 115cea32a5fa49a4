//! The three statements of the store, and what is bound to each.

use vstd::prelude::*;
use vstd::string::StringExecFns;
use crate::stamp::{stamp_valid, Timestamp};

verus! {

/// A statement ready to be run: its text, and the values bound to its
/// placeholders in order.
#[derive(Debug)]
pub struct Command {
    pub sql: &'static str,
    pub params: Vec<String>,
}

/// What a statement is, in contracts.
pub ghost struct CommandView {
    pub sql: Seq<char>,
    pub params: Seq<Seq<char>>,
}

impl View for Command {
    type V = CommandView;

    open spec fn view(&self) -> CommandView {
        CommandView {
            sql: self.sql@,
            params: Seq::new(self.params@.len(), |i: int| self.params@[i]@),
        }
    }
}

/// Text of the statement that creates the entries table unless it exists.
pub open spec fn create_sql() -> Seq<char> {
    "CREATE TABLE IF NOT EXISTS entries (id INTEGER PRIMARY KEY, quark TEXT, timestamp TEXT)"@
}

/// Text of the statement that adds one entry; storage assigns the id.
pub open spec fn insert_sql() -> Seq<char> {
    "INSERT INTO entries (quark, timestamp) VALUES (?1, ?2)"@
}

/// Text of the query that fetches every entry.
pub open spec fn select_sql() -> Seq<char> {
    "SELECT id, quark, timestamp FROM entries"@
}

/// The statement that creates the entries table unless it exists. It binds
/// nothing, and is the same statement at every call.
pub fn create_command() -> (command: Command)
    ensures
        command@.sql == create_sql(),
        command@.params == Seq::<Seq<char>>::empty(),
{
    Command {
        sql: "CREATE TABLE IF NOT EXISTS entries (id INTEGER PRIMARY KEY, quark TEXT, timestamp TEXT)",
        params: Vec::new(),
    }
}

/// The statement that adds one entry with the text `text`, created at
/// `created_at`: both are bound as they are, in this order, so what is bound
/// as the creation time is a timestamp.
pub fn insert_command(text: &str, created_at: &Timestamp) -> (command: Command)
    ensures
        command@.sql == insert_sql(),
        command@.params == seq![text@, created_at@],
        stamp_valid(command@.params[1]),
{
    let mut params: Vec<String> = Vec::new();
    params.push(String::from_str(text));
    params.push(String::from_str(created_at.as_str()));
    Command { sql: "INSERT INTO entries (quark, timestamp) VALUES (?1, ?2)", params }
}

/// The query that fetches every entry: id, text, timestamp. It binds nothing.
pub fn select_command() -> (command: Command)
    ensures
        command@.sql == select_sql(),
        command@.params == Seq::<Seq<char>>::empty(),
{
    Command { sql: "SELECT id, quark, timestamp FROM entries", params: Vec::new() }
}

} // verus!
