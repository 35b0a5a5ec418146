//! The two kinds of failure that an operation on the table can end in.

use vstd::prelude::*;

verus! {

/// What failed: the connection at startup, or one statement.
#[derive(Clone, Copy, Debug, PartialEq, Eq, Structural)]
pub enum ErrorKind {
    /// The session could not be established. This ends the run.
    Connection,
    /// A statement failed, or a column of its answer could not be read. The
    /// run goes on with the next operation.
    Statement,
}

/// A failure, with the text that describes it.
#[derive(Clone, Debug, PartialEq, Eq)]
pub struct DbError {
    pub kind: ErrorKind,
    pub message: String,
}

/// A failure as a mathematical value.
pub struct DbErrorView {
    pub kind: ErrorKind,
    pub message: Seq<char>,
}

impl View for DbError {
    type V = DbErrorView;

    open spec fn view(&self) -> DbErrorView {
        DbErrorView { kind: self.kind, message: self.message@ }
    }
}

impl DeepView for DbError {
    type V = DbErrorView;

    open spec fn deep_view(&self) -> DbErrorView {
        self@
    }
}

impl DbError {
    /// A failure to connect, described by `message`.
    pub fn connection(message: String) -> (e: DbError)
        ensures
            e@ == (DbErrorView { kind: ErrorKind::Connection, message: message@ }),
    {
        DbError { kind: ErrorKind::Connection, message }
    }

    /// A failed statement, described by `message`.
    pub fn statement(message: String) -> (e: DbError)
        ensures
            e@ == (DbErrorView { kind: ErrorKind::Statement, message: message@ }),
    {
        DbError { kind: ErrorKind::Statement, message }
    }

    /// Whether this failure ends the run.
    pub fn is_fatal(&self) -> (fatal: bool)
        ensures
            fatal == (self@.kind == ErrorKind::Connection),
    {
        match self.kind {
            ErrorKind::Connection => true,
            ErrorKind::Statement => false,
        }
    }

    /// A copy of this failure.
    pub fn duplicate(&self) -> (e: DbError)
        ensures
            e@ == self@,
    {
        DbError { kind: self.kind, message: self.message.clone() }
    }
}

} // verus!
