//! A local record store: timestamped text entries kept in a SQLite database.
//!
//! [`store::RecordStore`] owns one database connection and offers the three
//! operations of the store: create the schema, insert one entry, fetch all
//! entries. SQLite does the storing; this crate decides what is handed to it
//! and what each of its answers means, and proves that part with Verus.
//! Creation times are written in one encoding, which [`stamp::Timestamp`]
//! holds.

mod clock;
pub mod error;
pub mod form;
pub mod record;
pub mod schema;
pub mod sqlite;
pub mod stamp;
pub mod store;
