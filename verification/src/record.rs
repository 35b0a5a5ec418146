//! One row of the table as the client sees it: the three columns as they
//! were fetched, the record they decode to, and the line that shows it.

use vstd::prelude::*;
use vstd::string::StringExecFns;
use crate::decimal::{decimal_int, int_text};
use crate::error::{DbError, DbErrorView};

verus! {

/// How fetching one column of a row ended.
#[derive(Debug, PartialEq, Eq)]
pub enum Fetched<T> {
    /// The row has no such column.
    Absent,
    /// The column holds no value.
    Null,
    /// The column holds this value.
    Value(T),
    /// The column could not be read as the type that is expected of it.
    Unreadable(DbError),
}

/// A fetched column as a mathematical value.
pub enum FetchedView<V> {
    Absent,
    Null,
    Value(V),
    Unreadable(DbErrorView),
}

/// A fetched integer column as a mathematical value.
pub open spec fn int_column_view(c: Fetched<i32>) -> FetchedView<i32> {
    match c {
        Fetched::Absent => FetchedView::Absent,
        Fetched::Null => FetchedView::Null,
        Fetched::Value(n) => FetchedView::Value(n),
        Fetched::Unreadable(e) => FetchedView::Unreadable(e@),
    }
}

/// A fetched text column as a mathematical value.
pub open spec fn text_column_view(c: Fetched<String>) -> FetchedView<Seq<char>> {
    match c {
        Fetched::Absent => FetchedView::Absent,
        Fetched::Null => FetchedView::Null,
        Fetched::Value(s) => FetchedView::Value(s@),
        Fetched::Unreadable(e) => FetchedView::Unreadable(e@),
    }
}

/// How fetching a column ended, from what the row said: whether it has the
/// column at all, and what reading the column gave. A row without the column
/// gives `Absent`, whatever reading it gave.
pub open spec fn fetched_of<V>(present: bool, got: Result<Option<V>, DbErrorView>) -> FetchedView<
    V,
> {
    if !present {
        FetchedView::Absent
    } else {
        match got {
            Ok(Some(v)) => FetchedView::Value(v),
            Ok(None) => FetchedView::Null,
            Err(e) => FetchedView::Unreadable(e),
        }
    }
}

/// How fetching an integer column ended.
pub fn int_column(present: bool, got: Result<Option<i32>, DbError>) -> (c: Fetched<i32>)
    ensures
        int_column_view(c) == fetched_of(
            present,
            match got {
                Ok(v) => Ok(v),
                Err(e) => Err(e@),
            },
        ),
{
    if !present {
        return Fetched::Absent;
    }
    match got {
        Ok(Some(n)) => Fetched::Value(n),
        Ok(None) => Fetched::Null,
        Err(e) => Fetched::Unreadable(e),
    }
}

/// How fetching a text column ended.
pub fn text_column(present: bool, got: Result<Option<String>, DbError>) -> (c: Fetched<String>)
    ensures
        text_column_view(c) == fetched_of(
            present,
            match got {
                Ok(Some(s)) => Ok(Some(s@)),
                Ok(None) => Ok(None),
                Err(e) => Err(e@),
            },
        ),
{
    if !present {
        return Fetched::Absent;
    }
    match got {
        Ok(Some(s)) => Fetched::Value(s),
        Ok(None) => Fetched::Null,
        Err(e) => Fetched::Unreadable(e),
    }
}

/// The three columns of one row, each as fetching it ended.
#[derive(Debug, PartialEq, Eq)]
pub struct FetchedRow {
    pub id: Fetched<i32>,
    pub name: Fetched<String>,
    pub age: Fetched<i32>,
}

/// A fetched row as a mathematical value.
pub struct FetchedRowView {
    pub id: FetchedView<i32>,
    pub name: FetchedView<Seq<char>>,
    pub age: FetchedView<i32>,
}

impl View for FetchedRow {
    type V = FetchedRowView;

    open spec fn view(&self) -> FetchedRowView {
        FetchedRowView {
            id: int_column_view(self.id),
            name: text_column_view(self.name),
            age: int_column_view(self.age),
        }
    }
}

impl DeepView for FetchedRow {
    type V = FetchedRowView;

    open spec fn deep_view(&self) -> FetchedRowView {
        self@
    }
}

/// A user as read from the table. Any column may be without a value.
#[derive(Clone, Debug, PartialEq, Eq)]
pub struct UserRecord {
    pub id: Option<i32>,
    pub name: Option<String>,
    pub age: Option<i32>,
}

/// A user record as a mathematical value.
pub struct UserRecordView {
    pub id: Option<i32>,
    pub name: Option<Seq<char>>,
    pub age: Option<i32>,
}

impl View for UserRecord {
    type V = UserRecordView;

    open spec fn view(&self) -> UserRecordView {
        UserRecordView {
            id: self.id,
            name: match self.name {
                Some(s) => Some(s@),
                None => None,
            },
            age: self.age,
        }
    }
}

impl DeepView for UserRecord {
    type V = UserRecordView;

    open spec fn deep_view(&self) -> UserRecordView {
        self@
    }
}

/// What a fetched column gives to the record: its value, no value where
/// the column is null or absent, or the failure to read it.
pub open spec fn column_value<V>(c: FetchedView<V>) -> Result<Option<V>, DbErrorView> {
    match c {
        FetchedView::Absent => Ok(None),
        FetchedView::Null => Ok(None),
        FetchedView::Value(v) => Ok(Some(v)),
        FetchedView::Unreadable(e) => Err(e),
    }
}

/// The record that a fetched row decodes to, or the failure of the first
/// column, in the order identifier, name, age, that could not be read.
pub open spec fn decode_row(row: FetchedRowView) -> Result<UserRecordView, DbErrorView> {
    match column_value(row.id) {
        Err(e) => Err(e),
        Ok(id) => match column_value(row.name) {
            Err(e) => Err(e),
            Ok(name) => match column_value(row.age) {
                Err(e) => Err(e),
                Ok(age) => Ok(UserRecordView { id, name, age }),
            },
        },
    }
}

/// The column that holds `v`, or is null where there is no value.
pub open spec fn column_of<V>(v: Option<V>) -> FetchedView<V> {
    match v {
        Some(x) => FetchedView::Value(x),
        None => FetchedView::Null,
    }
}

/// How an integer field is shown: its decimal text, or `NULL` where it has
/// no value.
pub open spec fn int_field(v: Option<i32>) -> Seq<char> {
    match v {
        Some(n) => decimal_int(n as int),
        None => "NULL"@,
    }
}

/// How a text field is shown: the text itself, or `NULL` where it has no
/// value.
pub open spec fn text_field(v: Option<Seq<char>>) -> Seq<char> {
    match v {
        Some(s) => s,
        None => "NULL"@,
    }
}

/// The line that shows one record.
pub open spec fn record_line(r: UserRecordView) -> Seq<char> {
    "ID: "@ + int_field(r.id) + ", Name: "@ + text_field(r.name) + ", Age: "@ + int_field(r.age)
}

/// A column without a value is no failure: a row whose age is null or
/// absent, and whose other two columns were read, decodes to a record
/// without an age, and the line of that record ends in `Age: NULL`.
pub proof fn lemma_null_age_is_shown(row: FetchedRowView)
    requires
        column_value(row.id) is Ok,
        column_value(row.name) is Ok,
        row.age is Null || row.age is Absent,
    ensures
        decode_row(row) == Ok::<UserRecordView, DbErrorView>(
            UserRecordView {
                id: column_value(row.id)->Ok_0,
                name: column_value(row.name)->Ok_0,
                age: None,
            },
        ),
        record_line(decode_row(row)->Ok_0) == "ID: "@ + int_field(column_value(row.id)->Ok_0)
            + ", Name: "@ + text_field(column_value(row.name)->Ok_0) + ", Age: NULL"@,
{
    reveal_strlit(", Age: ");
    reveal_strlit("NULL");
    reveal_strlit(", Age: NULL");
}

/// Appends to `out` how an integer field is shown.
fn push_int_field(out: &mut String, v: Option<i32>)
    ensures
        final(out)@ == old(out)@ + int_field(v),
{
    match v {
        Some(n) => {
            let text = int_text(n as i64);
            out.append(text.as_str());
        },
        None => {
            out.append("NULL");
        },
    }
}

impl FetchedRow {
    /// A row whose three columns were all read: each holds the value given
    /// for it, or is null where none is given.
    pub fn complete(id: Option<i32>, name: Option<String>, age: Option<i32>) -> (row: FetchedRow)
        ensures
            row@.id == column_of(id),
            row@.name == column_of(
                match name {
                    Some(s) => Some(s@),
                    None => None,
                },
            ),
            row@.age == column_of(age),
    {
        FetchedRow {
            id: match id {
                Some(n) => Fetched::Value(n),
                None => Fetched::Null,
            },
            name: match name {
                Some(s) => Fetched::Value(s),
                None => Fetched::Null,
            },
            age: match age {
                Some(n) => Fetched::Value(n),
                None => Fetched::Null,
            },
        }
    }

    /// Decodes the row: the record when no column failed, else the failure
    /// of the first column that did. A column that is null or absent leaves
    /// its field without a value.
    pub fn decode(&self) -> (r: Result<UserRecord, DbError>)
        ensures
            match r {
                Ok(record) => decode_row(self@) == Ok::<UserRecordView, DbErrorView>(record@),
                Err(e) => decode_row(self@) == Err::<UserRecordView, DbErrorView>(e@),
            },
    {
        let id = match &self.id {
            Fetched::Value(n) => Some(*n),
            Fetched::Unreadable(e) => {
                return Err(e.duplicate());
            },
            _ => None,
        };
        let name = match &self.name {
            Fetched::Value(s) => Some(s.clone()),
            Fetched::Unreadable(e) => {
                return Err(e.duplicate());
            },
            _ => None,
        };
        let age = match &self.age {
            Fetched::Value(n) => Some(*n),
            Fetched::Unreadable(e) => {
                return Err(e.duplicate());
            },
            _ => None,
        };
        Ok(UserRecord { id, name, age })
    }
}

impl UserRecord {
    /// The line that shows this record: `ID: 1, Name: Alice, Age: 30`, with
    /// `NULL` in place of a field without a value.
    pub fn line(&self) -> (text: String)
        ensures
            text@ == record_line(self@),
    {
        let mut out = String::from_str("ID: ");
        push_int_field(&mut out, self.id);
        out.append(", Name: ");
        match &self.name {
            Some(s) => {
                out.append(s.as_str());
            },
            None => {
                out.append("NULL");
            },
        }
        out.append(", Age: ");
        push_int_field(&mut out, self.age);
        out
    }
}

} // verus!
