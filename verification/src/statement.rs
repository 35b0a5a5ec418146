//! The four statements that the client sends, the values bound to each, and
//! the count of affected rows in the answer.

use vstd::prelude::*;
use vstd::string::StringExecFns;
use crate::listing::{ResultItem, ResultItemView};

verus! {

/// A value bound to a placeholder of a statement.
#[derive(Clone, Debug, PartialEq, Eq)]
pub enum Param {
    Text(String),
    Int(i32),
}

/// A bound value as a mathematical value.
pub enum ParamView {
    Text(Seq<char>),
    Int(i32),
}

impl View for Param {
    type V = ParamView;

    open spec fn view(&self) -> ParamView {
        match self {
            Param::Text(s) => ParamView::Text(s@),
            Param::Int(n) => ParamView::Int(*n),
        }
    }
}

impl DeepView for Param {
    type V = ParamView;

    open spec fn deep_view(&self) -> ParamView {
        self@
    }
}

/// One statement on the table. A record is addressed by its identifier
/// only, and no statement carries an identifier for a new record: the server
/// assigns it.
#[derive(Clone, Debug, PartialEq, Eq)]
pub enum Statement {
    /// Insert a user with this name and age.
    Insert { name: String, age: i32 },
    /// Select all users, in whatever order the server returns them.
    Select,
    /// Set the age of the user with this identifier.
    Update { id: i32, age: i32 },
    /// Delete the user with this identifier.
    Delete { id: i32 },
}

/// A statement as a mathematical value.
pub enum StatementView {
    Insert { name: Seq<char>, age: i32 },
    Select,
    Update { id: i32, age: i32 },
    Delete { id: i32 },
}

impl View for Statement {
    type V = StatementView;

    open spec fn view(&self) -> StatementView {
        match self {
            Statement::Insert { name, age } => StatementView::Insert { name: name@, age: *age },
            Statement::Select => StatementView::Select,
            Statement::Update { id, age } => StatementView::Update { id: *id, age: *age },
            Statement::Delete { id } => StatementView::Delete { id: *id },
        }
    }
}

impl DeepView for Statement {
    type V = StatementView;

    open spec fn deep_view(&self) -> StatementView {
        self@
    }
}

/// What the server answers to a statement that it carried out: the counts of
/// affected rows, one for each statement of the batch, and the items of the
/// result stream. A statement that changes the table has no items; the
/// select statement has no counts.
#[derive(Debug, PartialEq, Eq)]
pub struct Reply {
    pub counts: Vec<u64>,
    pub items: Vec<ResultItem>,
}

/// An answer as a mathematical value.
pub struct ReplyView {
    pub counts: Seq<u64>,
    pub items: Seq<ResultItemView>,
}

impl View for Reply {
    type V = ReplyView;

    open spec fn view(&self) -> ReplyView {
        ReplyView { counts: self.counts@, items: self.items.deep_view() }
    }
}

/// The text of a statement, with `@P1`, `@P2` where its values are bound.
pub open spec fn sql_text(s: StatementView) -> Seq<char> {
    match s {
        StatementView::Insert { .. } => "INSERT INTO Users (Name, Age) VALUES (@P1, @P2);"@,
        StatementView::Select => "SELECT ID, Name, Age FROM Users;"@,
        StatementView::Update { .. } => "UPDATE Users SET Age = @P1 WHERE ID = @P2;"@,
        StatementView::Delete { .. } => "DELETE FROM Users WHERE ID = @P1;"@,
    }
}

/// The values bound to a statement: the first for `@P1`, the second for
/// `@P2`.
pub open spec fn bound_values(s: StatementView) -> Seq<ParamView> {
    match s {
        StatementView::Insert { name, age } => seq![ParamView::Text(name), ParamView::Int(age)],
        StatementView::Select => Seq::empty(),
        StatementView::Update { id, age } => seq![ParamView::Int(age), ParamView::Int(id)],
        StatementView::Delete { id } => seq![ParamView::Int(id)],
    }
}

/// The count that a statement reports: that of the first statement of the
/// batch, or 0 where the answer carries no count.
pub open spec fn first_count(counts: Seq<u64>) -> u64 {
    if counts.len() > 0 {
        counts[0]
    } else {
        0
    }
}

impl Statement {
    /// The statement that inserts a user.
    pub fn insert(name: &str, age: i32) -> (s: Statement)
        ensures
            s@ == (StatementView::Insert { name: name@, age }),
    {
        Statement::Insert { name: String::from_str(name), age }
    }

    /// The statement that selects all users.
    pub fn select() -> (s: Statement)
        ensures
            s@ == StatementView::Select,
    {
        Statement::Select
    }

    /// The statement that sets the age of the user `id`.
    pub fn update(id: i32, age: i32) -> (s: Statement)
        ensures
            s@ == (StatementView::Update { id, age }),
    {
        Statement::Update { id, age }
    }

    /// The statement that deletes the user `id`.
    pub fn delete(id: i32) -> (s: Statement)
        ensures
            s@ == (StatementView::Delete { id }),
    {
        Statement::Delete { id }
    }

    /// The text to send.
    pub fn sql(&self) -> (text: &'static str)
        ensures
            text@ == sql_text(self@),
    {
        match self {
            Statement::Insert { .. } => "INSERT INTO Users (Name, Age) VALUES (@P1, @P2);",
            Statement::Select => "SELECT ID, Name, Age FROM Users;",
            Statement::Update { .. } => "UPDATE Users SET Age = @P1 WHERE ID = @P2;",
            Statement::Delete { .. } => "DELETE FROM Users WHERE ID = @P1;",
        }
    }

    /// The values to bind, in the order of their placeholders.
    pub fn params(&self) -> (values: Vec<Param>)
        ensures
            values.deep_view() == bound_values(self@),
    {
        let mut values: Vec<Param> = Vec::new();
        match self {
            Statement::Insert { name, age } => {
                values.push(Param::Text(name.clone()));
                values.push(Param::Int(*age));
            },
            Statement::Select => {},
            Statement::Update { id, age } => {
                values.push(Param::Int(*age));
                values.push(Param::Int(*id));
            },
            Statement::Delete { id } => {
                values.push(Param::Int(*id));
            },
        }
        values
    }

    /// Whether the answer to this statement is a stream of rows, rather than
    /// counts of affected rows.
    pub fn is_query(&self) -> (q: bool)
        ensures
            q == (self@ is Select),
    {
        match self {
            Statement::Select => true,
            _ => false,
        }
    }
}

/// The number of rows that a statement affected, from the counts in its
/// answer: the first of them, 0 where there is none.
pub fn rows_affected(counts: &[u64]) -> (n: u64)
    ensures
        n == first_count(counts@),
{
    if counts.len() > 0 {
        counts[0]
    } else {
        0
    }
}

} // verus!
