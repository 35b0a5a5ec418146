//! The demonstration run: which operation comes next, what is announced
//! before it, and what is reported for each way in which it can end.
//!
//! The program around the library performs each task and hands back how it
//! ended; everything that is decided or worded is decided and worded here.

use vstd::prelude::*;
use vstd::string::StringExecFns;
use crate::decimal::{decimal_int, int_text};
use crate::error::{DbError, DbErrorView, ErrorKind};
use crate::listing::{listing_of, read_users, rows_of, ListingView};
use crate::statement::{first_count, rows_affected, Reply, ReplyView, Statement, StatementView};

verus! {

/// Where a line goes: standard output, or standard error.
#[derive(Clone, Copy, Debug, PartialEq, Eq, Structural)]
pub enum Stream {
    Stdout,
    Stderr,
}

/// One line of output.
#[derive(Clone, Debug, PartialEq, Eq)]
pub struct Line {
    pub stream: Stream,
    pub text: String,
}

/// A line of output as a mathematical value.
pub struct LineView {
    pub stream: Stream,
    pub text: Seq<char>,
}

impl View for Line {
    type V = LineView;

    open spec fn view(&self) -> LineView {
        LineView { stream: self.stream, text: self.text@ }
    }
}

impl DeepView for Line {
    type V = LineView;

    open spec fn deep_view(&self) -> LineView {
        self@
    }
}

/// A line on standard output.
pub open spec fn out_line(text: Seq<char>) -> LineView {
    LineView { stream: Stream::Stdout, text }
}

/// A line on standard error.
pub open spec fn err_line(text: Seq<char>) -> LineView {
    LineView { stream: Stream::Stderr, text }
}

/// One task of the run.
#[derive(Clone, Debug, PartialEq, Eq)]
pub enum Task {
    /// Establish the session.
    Connect,
    /// Insert a user.
    Create { name: String, age: i32 },
    /// Read and list all users. `last` marks the read that ends the run.
    Read { last: bool },
    /// Set the age of a user.
    Update { id: i32, age: i32 },
    /// Delete a user.
    Delete { id: i32 },
}

/// A task as a mathematical value.
pub enum TaskView {
    Connect,
    Create { name: Seq<char>, age: i32 },
    Read { last: bool },
    Update { id: i32, age: i32 },
    Delete { id: i32 },
}

impl View for Task {
    type V = TaskView;

    open spec fn view(&self) -> TaskView {
        match self {
            Task::Connect => TaskView::Connect,
            Task::Create { name, age } => TaskView::Create { name: name@, age: *age },
            Task::Read { last } => TaskView::Read { last: *last },
            Task::Update { id, age } => TaskView::Update { id: *id, age: *age },
            Task::Delete { id } => TaskView::Delete { id: *id },
        }
    }
}

impl DeepView for Task {
    type V = TaskView;

    open spec fn deep_view(&self) -> TaskView {
        self@
    }
}

/// One step of the run: a task, and whether it is announced.
#[derive(Clone, Debug, PartialEq, Eq)]
pub struct Step {
    pub announce: bool,
    pub task: Task,
}

/// A step as a mathematical value.
pub struct StepView {
    pub announce: bool,
    pub task: TaskView,
}

impl View for Step {
    type V = StepView;

    open spec fn view(&self) -> StepView {
        StepView { announce: self.announce, task: self.task@ }
    }
}

impl DeepView for Step {
    type V = StepView;

    open spec fn deep_view(&self) -> StepView {
        self@
    }
}

/// What is to be shown after a task, and whether the run ends there.
#[derive(Debug, PartialEq, Eq)]
pub struct Report {
    /// The lines to write, in order.
    pub lines: Vec<Line>,
    /// The failure that ends the run, if the task ended in one that does.
    pub halt: Option<DbError>,
}

/// A report as a mathematical value.
pub struct ReportView {
    pub lines: Seq<LineView>,
    pub halt: Option<DbErrorView>,
}

impl View for Report {
    type V = ReportView;

    open spec fn view(&self) -> ReportView {
        ReportView {
            lines: self.lines.deep_view(),
            halt: match self.halt {
                Some(e) => Some(e@),
                None => None,
            },
        }
    }
}

/// The steps of the run: connect; create Alice, aged 30, and Bob, aged 42,
/// under one announcement; read; set the age of user 1 to 35; delete user 1;
/// read again.
pub open spec fn demo_steps() -> Seq<StepView> {
    seq![
        StepView { announce: true, task: TaskView::Connect },
        StepView { announce: true, task: TaskView::Create { name: "Alice"@, age: 30 } },
        StepView { announce: false, task: TaskView::Create { name: "Bob"@, age: 42 } },
        StepView { announce: true, task: TaskView::Read { last: false } },
        StepView { announce: true, task: TaskView::Update { id: 1, age: 35 } },
        StepView { announce: true, task: TaskView::Delete { id: 1 } },
        StepView { announce: true, task: TaskView::Read { last: true } },
    ]
}

/// The statement that a task sends; none for connecting.
pub open spec fn statement_of(task: TaskView) -> Option<StatementView> {
    match task {
        TaskView::Connect => None,
        TaskView::Create { name, age } => Some(StatementView::Insert { name, age }),
        TaskView::Read { .. } => Some(StatementView::Select),
        TaskView::Update { id, age } => Some(StatementView::Update { id, age }),
        TaskView::Delete { id } => Some(StatementView::Delete { id }),
    }
}

/// The line that announces a task.
pub open spec fn heading_of(task: TaskView) -> Seq<char> {
    match task {
        TaskView::Connect => "Connecting to database..."@,
        TaskView::Create { .. } => "Attempting to create user..."@,
        TaskView::Read { last } => if last {
            "\nFinal read of users..."@
        } else {
            "\nReading users..."@
        },
        TaskView::Update { id, .. } => "\nAttempting to update user ID "@ + decimal_int(id as int)
            + "..."@,
        TaskView::Delete { id } => "\nAttempting to delete user ID "@ + decimal_int(id as int)
            + "..."@,
    }
}

/// The line for a task that ended in a failure: the words for the task, then
/// the text of the failure.
pub open spec fn failure_line(task: TaskView, e: DbErrorView) -> LineView {
    err_line(
        match task {
            TaskView::Connect => "Error: "@,
            TaskView::Create { .. } => "Error creating user: "@,
            TaskView::Read { .. } => "Error reading users: "@,
            TaskView::Update { .. } => "Error updating user: "@,
            TaskView::Delete { .. } => "Error deleting user: "@,
        } + e.message,
    )
}

/// The line for a statement that was carried out and affected `count` rows.
/// No affected row is no failure: for an update or a delete it means that no
/// user has the identifier.
pub open spec fn count_line(task: TaskView, count: u64) -> LineView {
    out_line(
        match task {
            TaskView::Create { name, .. } => if count > 0 {
                "User '"@ + name + "' created."@
            } else {
                "User '"@ + name + "' creation reported 0 rows affected."@
            },
            TaskView::Update { id, .. } => if count > 0 {
                "User ID "@ + decimal_int(id as int) + " updated."@
            } else {
                "User ID "@ + decimal_int(id as int) + " not found for update."@
            },
            TaskView::Delete { id } => if count > 0 {
                "User ID "@ + decimal_int(id as int) + " deleted."@
            } else {
                "User ID "@ + decimal_int(id as int) + " not found for deletion."@
            },
            _ => Seq::empty(),
        },
    )
}

/// The line that closes a read that was not cut short.
pub open spec fn finished_line(last: bool) -> LineView {
    out_line(
        if last {
            "Finished final read."@
        } else {
            "Finished reading users."@
        },
    )
}

/// The lines of a read whose answer arrived: the listing on standard output,
/// then the closing line, or the failure of the row that cut it short.
pub open spec fn read_lines(last: bool, listing: ListingView) -> Seq<LineView> {
    listing.lines.map_values(|text: Seq<char>| out_line(text)).push(
        match listing.failure {
            None => finished_line(last),
            Some(e) => failure_line(TaskView::Read { last }, e),
        },
    )
}

/// The report on a task that ended with `answer`.
///
/// Only a failure to connect ends the run; it is handed on as a connection
/// failure and nothing is written for it here. Any other failure is written
/// to standard error and the run goes on.
pub open spec fn report_of(task: TaskView, answer: Result<ReplyView, DbErrorView>) -> ReportView {
    match answer {
        Err(e) => match task {
            TaskView::Connect => ReportView {
                lines: Seq::empty(),
                halt: Some(DbErrorView { kind: ErrorKind::Connection, message: e.message }),
            },
            _ => ReportView { lines: seq![failure_line(task, e)], halt: None },
        },
        Ok(reply) => match task {
            TaskView::Connect => ReportView {
                lines: seq![out_line("Connected successfully."@)],
                halt: None,
            },
            TaskView::Read { last } => ReportView {
                lines: read_lines(last, listing_of(rows_of(reply.items))),
                halt: None,
            },
            _ => ReportView {
                lines: seq![count_line(task, first_count(reply.counts))],
                halt: None,
            },
        },
    }
}

/// Only a failure to connect ends the run, and it is handed on as a
/// connection failure. A statement that fails is reported in one line on
/// standard error and the run goes on. A statement that was carried out is
/// reported on standard output, also where it affected no row.
pub proof fn lemma_only_connecting_halts(task: TaskView, answer: Result<ReplyView, DbErrorView>)
    ensures
        report_of(task, answer).halt is Some <==> task is Connect && answer is Err,
        report_of(task, answer).halt is Some ==> report_of(task, answer).halt->Some_0 == (
        DbErrorView { kind: ErrorKind::Connection, message: answer->Err_0.message }),
        answer is Err && !(task is Connect) ==> {
            &&& report_of(task, answer).lines.len() == 1
            &&& report_of(task, answer).lines[0] == failure_line(task, answer->Err_0)
            &&& report_of(task, answer).lines[0].stream == Stream::Stderr
        },
        answer is Ok && (task is Create || task is Update || task is Delete) ==> {
            &&& report_of(task, answer).lines.len() == 1
            &&& report_of(task, answer).lines[0].stream == Stream::Stdout
        },
{
}

impl Line {
    /// A line on standard output.
    pub fn out(text: String) -> (line: Line)
        ensures
            line@ == out_line(text@),
    {
        Line { stream: Stream::Stdout, text }
    }

    /// A line on standard error.
    pub fn err(text: String) -> (line: Line)
        ensures
            line@ == err_line(text@),
    {
        Line { stream: Stream::Stderr, text }
    }
}

/// `before`, the decimal text of `id`, then `after`.
fn around_id(before: &str, id: i32, after: &str) -> (text: String)
    ensures
        text@ == before@ + decimal_int(id as int) + after@,
{
    let mut text = String::from_str(before);
    let digits = int_text(id as i64);
    text.append(digits.as_str());
    text.append(after);
    text
}

impl Task {
    /// The statement to send for the task; none for connecting.
    pub fn statement(&self) -> (s: Option<Statement>)
        ensures
            match s {
                Some(statement) => statement_of(self@) == Some(statement@),
                None => statement_of(self@) is None,
            },
    {
        match self {
            Task::Connect => None,
            Task::Create { name, age } => Some(Statement::insert(name.as_str(), *age)),
            Task::Read { .. } => Some(Statement::select()),
            Task::Update { id, age } => Some(Statement::update(*id, *age)),
            Task::Delete { id } => Some(Statement::delete(*id)),
        }
    }

    /// The line that announces the task.
    pub fn heading(&self) -> (text: String)
        ensures
            text@ == heading_of(self@),
    {
        match self {
            Task::Connect => String::from_str("Connecting to database..."),
            Task::Create { .. } => String::from_str("Attempting to create user..."),
            Task::Read { last } => if *last {
                String::from_str("\nFinal read of users...")
            } else {
                String::from_str("\nReading users...")
            },
            Task::Update { id, .. } => around_id("\nAttempting to update user ID ", *id, "..."),
            Task::Delete { id } => around_id("\nAttempting to delete user ID ", *id, "..."),
        }
    }

    /// The line for the task where it ended in a failure.
    pub fn failure(&self, e: &DbError) -> (line: Line)
        ensures
            line@ == failure_line(self@, e@),
    {
        let mut text = match self {
            Task::Connect => String::from_str("Error: "),
            Task::Create { .. } => String::from_str("Error creating user: "),
            Task::Read { .. } => String::from_str("Error reading users: "),
            Task::Update { .. } => String::from_str("Error updating user: "),
            Task::Delete { .. } => String::from_str("Error deleting user: "),
        };
        text.append(e.message.as_str());
        Line::err(text)
    }

    /// The line for the task where its statement affected `count` rows.
    fn counted(&self, count: u64) -> (line: Line)
        ensures
            line@ == count_line(self@, count),
    {
        let text = match self {
            Task::Create { name, .. } => {
                let mut text = String::from_str("User '");
                text.append(name.as_str());
                if count > 0 {
                    text.append("' created.");
                } else {
                    text.append("' creation reported 0 rows affected.");
                }
                text
            },
            Task::Update { id, .. } => if count > 0 {
                around_id("User ID ", *id, " updated.")
            } else {
                around_id("User ID ", *id, " not found for update.")
            },
            Task::Delete { id } => if count > 0 {
                around_id("User ID ", *id, " deleted.")
            } else {
                around_id("User ID ", *id, " not found for deletion.")
            },
            _ => String::new(),
        };
        Line::out(text)
    }

    /// The report on the task, which ended with `answer`: the lines to
    /// write, and the failure that ends the run where connecting failed.
    pub fn report(&self, answer: Result<Reply, DbError>) -> (report: Report)
        ensures
            report@ == report_of(
                self@,
                match answer {
                    Ok(reply) => Ok(reply@),
                    Err(e) => Err(e@),
                },
            ),
    {
        let mut lines: Vec<Line> = Vec::new();
        match answer {
            Err(e) => match self {
                Task::Connect => {
                    let report = Report { lines, halt: Some(DbError::connection(e.message)) };
                    assert(report@.lines =~= Seq::<LineView>::empty());
                    report
                },
                _ => {
                    lines.push(self.failure(&e));
                    let report = Report { lines, halt: None };
                    assert(report@.lines =~= seq![failure_line(self@, e@)]);
                    report
                },
            },
            Ok(reply) => match self {
                Task::Connect => {
                    lines.push(Line::out(String::from_str("Connected successfully.")));
                    let report = Report { lines, halt: None };
                    assert(report@.lines =~= seq![out_line("Connected successfully."@)]);
                    report
                },
                Task::Read { last } => {
                    let listing = read_users(reply.items);
                    let ghost shown = listing@.lines;
                    let mut i: usize = 0;
                    while i < listing.lines.len()
                        invariant
                            0 <= i <= listing.lines.len(),
                            shown == listing.lines.deep_view(),
                            lines.deep_view() =~= shown.take(i as int).map_values(
                                |text: Seq<char>| out_line(text),
                            ),
                        decreases listing.lines.len() - i,
                    {
                        let ghost done = lines.deep_view();
                        let line = Line::out(listing.lines[i].clone());
                        lines.push(line);
                        assert(lines.deep_view() =~= done.push(line@));
                        i += 1;
                    }
                    assert(shown.take(shown.len() as int) =~= shown);
                    let ghost body = lines.deep_view();
                    let closing = match &listing.failure {
                        None => if *last {
                            Line::out(String::from_str("Finished final read."))
                        } else {
                            Line::out(String::from_str("Finished reading users."))
                        },
                        Some(e) => self.failure(e),
                    };
                    lines.push(closing);
                    let report = Report { lines, halt: None };
                    assert(report@.lines =~= body.push(closing@));
                    report
                },
                _ => {
                    let count = rows_affected(reply.counts.as_slice());
                    lines.push(self.counted(count));
                    let report = Report { lines, halt: None };
                    assert(report@.lines =~= seq![count_line(self@, first_count(reply@.counts))]);
                    report
                },
            },
        }
    }
}

/// The steps of the demonstration run, in order.
pub fn demo_script() -> (steps: Vec<Step>)
    ensures
        steps.deep_view() == demo_steps(),
{
    let mut steps: Vec<Step> = Vec::new();
    steps.push(Step { announce: true, task: Task::Connect });
    steps.push(
        Step { announce: true, task: Task::Create { name: String::from_str("Alice"), age: 30 } },
    );
    steps.push(
        Step { announce: false, task: Task::Create { name: String::from_str("Bob"), age: 42 } },
    );
    steps.push(Step { announce: true, task: Task::Read { last: false } });
    steps.push(Step { announce: true, task: Task::Update { id: 1, age: 35 } });
    steps.push(Step { announce: true, task: Task::Delete { id: 1 } });
    steps.push(Step { announce: true, task: Task::Read { last: true } });
    steps
}

} // verus!
