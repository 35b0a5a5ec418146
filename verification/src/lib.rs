//! A client library for a single `Users` table on a relational database
//! server.
//!
//! The library holds everything about the table's client that does not touch
//! the network: the parameters of the connection, the statements and the
//! values bound to them, the reading of what the server answers, the text
//! shown for each outcome, and the fixed run of operations of the
//! demonstration. A program around it owns the connection, sends each
//! statement and hands the answer back.

pub mod decimal;
pub mod error;
pub mod listing;
pub mod record;
pub mod script;
pub mod settings;
pub mod statement;
pub mod table;
