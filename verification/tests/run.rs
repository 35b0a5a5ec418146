use users_table::error::{DbError, ErrorKind};
use users_table::listing::ResultItem;
use users_table::record::{Fetched, FetchedRow};
use users_table::script::{demo_script, Line, Report, Step, Stream, Task};
use users_table::statement::{Reply, Statement};
use users_table::table::UserTable;

fn out(text: &str) -> Line {
    Line { stream: Stream::Stdout, text: text.to_string() }
}

fn err(text: &str) -> Line {
    Line { stream: Stream::Stderr, text: text.to_string() }
}

fn counts(counts: &[u64]) -> Result<Reply, DbError> {
    Ok(Reply { counts: counts.to_vec(), items: Vec::new() })
}

fn items(items: Vec<ResultItem>) -> Result<Reply, DbError> {
    Ok(Reply { counts: Vec::new(), items })
}

fn failed(text: &str) -> Result<Reply, DbError> {
    Err(DbError::statement(text.to_string()))
}

fn create(name: &str) -> Task {
    Task::Create { name: name.to_string(), age: 30 }
}

/// Runs the script with a table in place of the server and collects what is
/// written.
fn run_on(table: &mut UserTable) -> (Vec<Line>, Option<DbError>) {
    let mut written = Vec::new();
    for step in demo_script() {
        if step.announce {
            written.push(Line::out(step.task.heading()));
        }
        let answer = match step.task.statement() {
            None => Ok(Reply { counts: Vec::new(), items: Vec::new() }),
            Some(statement) => table.execute(&statement),
        };
        let report = step.task.report(answer);
        written.extend(report.lines);
        if report.halt.is_some() {
            return (written, report.halt);
        }
    }
    (written, None)
}

#[test]
fn demo_script_is_connect_create_read_update_delete_read() {
    assert_eq!(
        demo_script(),
        vec![
            Step { announce: true, task: Task::Connect },
            Step { announce: true, task: Task::Create { name: "Alice".to_string(), age: 30 } },
            Step { announce: false, task: Task::Create { name: "Bob".to_string(), age: 42 } },
            Step { announce: true, task: Task::Read { last: false } },
            Step { announce: true, task: Task::Update { id: 1, age: 35 } },
            Step { announce: true, task: Task::Delete { id: 1 } },
            Step { announce: true, task: Task::Read { last: true } },
        ]
    );
}

#[test]
fn statement_of_each_task() {
    assert_eq!(Task::Connect.statement(), None);
    assert_eq!(
        Task::Create { name: "Alice".to_string(), age: 30 }.statement(),
        Some(Statement::insert("Alice", 30))
    );
    assert_eq!(Task::Read { last: false }.statement(), Some(Statement::select()));
    assert_eq!(Task::Read { last: true }.statement(), Some(Statement::select()));
    assert_eq!(Task::Update { id: 1, age: 35 }.statement(), Some(Statement::update(1, 35)));
    assert_eq!(Task::Delete { id: 1 }.statement(), Some(Statement::delete(1)));
}

#[test]
fn heading_of_each_task() {
    assert_eq!(Task::Connect.heading(), "Connecting to database...");
    assert_eq!(create("Alice").heading(), "Attempting to create user...");
    assert_eq!(Task::Read { last: false }.heading(), "\nReading users...");
    assert_eq!(Task::Read { last: true }.heading(), "\nFinal read of users...");
    assert_eq!(Task::Update { id: 1, age: 35 }.heading(), "\nAttempting to update user ID 1...");
    assert_eq!(Task::Delete { id: 1 }.heading(), "\nAttempting to delete user ID 1...");
    assert_eq!(Task::Delete { id: -12 }.heading(), "\nAttempting to delete user ID -12...");
}

#[test]
fn report_on_connecting() {
    let ok = Task::Connect.report(counts(&[]));
    assert_eq!(ok, Report { lines: vec![out("Connected successfully.")], halt: None });
}

#[test]
fn failure_to_connect_ends_the_run() {
    let report = Task::Connect.report(Err(DbError::connection("connection refused".to_string())));
    assert_eq!(report.lines, Vec::<Line>::new());
    assert_eq!(report.halt, Some(DbError::connection("connection refused".to_string())));
    let report = Task::Connect.report(failed("login failed"));
    assert_eq!(report.lines, Vec::<Line>::new());
    let halt = report.halt.unwrap();
    assert_eq!(halt.kind, ErrorKind::Connection);
    assert_eq!(halt.message, "login failed");
    assert!(halt.is_fatal());
}

#[test]
fn report_on_create() {
    assert_eq!(
        create("Alice").report(counts(&[1])),
        Report { lines: vec![out("User 'Alice' created.")], halt: None }
    );
    assert_eq!(
        create("Bob").report(counts(&[0])),
        Report { lines: vec![out("User 'Bob' creation reported 0 rows affected.")], halt: None }
    );
    assert_eq!(
        create("Bob").report(counts(&[])),
        Report { lines: vec![out("User 'Bob' creation reported 0 rows affected.")], halt: None }
    );
    assert_eq!(
        create("Bob").report(failed("Token error: constraint")),
        Report { lines: vec![err("Error creating user: Token error: constraint")], halt: None }
    );
}

#[test]
fn report_on_update() {
    let task = Task::Update { id: 1, age: 35 };
    assert_eq!(
        task.report(counts(&[1])),
        Report { lines: vec![out("User ID 1 updated.")], halt: None }
    );
    assert_eq!(
        task.report(counts(&[0])),
        Report { lines: vec![out("User ID 1 not found for update.")], halt: None }
    );
    assert_eq!(
        task.report(failed("connection lost")),
        Report { lines: vec![err("Error updating user: connection lost")], halt: None }
    );
    assert_eq!(
        Task::Update { id: 250, age: 1 }.report(counts(&[2, 0])),
        Report { lines: vec![out("User ID 250 updated.")], halt: None }
    );
}

#[test]
fn report_on_delete() {
    let task = Task::Delete { id: 1 };
    assert_eq!(
        task.report(counts(&[1])),
        Report { lines: vec![out("User ID 1 deleted.")], halt: None }
    );
    assert_eq!(
        task.report(counts(&[0])),
        Report { lines: vec![out("User ID 1 not found for deletion.")], halt: None }
    );
    assert_eq!(
        task.report(failed("connection lost")),
        Report { lines: vec![err("Error deleting user: connection lost")], halt: None }
    );
}

#[test]
fn report_on_a_read_of_no_rows() {
    assert_eq!(
        Task::Read { last: false }.report(items(vec![ResultItem::Metadata])),
        Report {
            lines: vec![
                out("--- User List ---"),
                out("No users found."),
                out("-----------------"),
                out("Finished reading users."),
            ],
            halt: None,
        }
    );
}

#[test]
fn report_on_a_read_of_rows() {
    let answer = items(vec![
        ResultItem::Metadata,
        ResultItem::Row(FetchedRow::complete(Some(2), Some("Bob".to_string()), Some(42))),
        ResultItem::Row(FetchedRow::complete(Some(3), None, None)),
    ]);
    assert_eq!(
        Task::Read { last: true }.report(answer),
        Report {
            lines: vec![
                out("--- User List ---"),
                out("ID: 2, Name: Bob, Age: 42"),
                out("ID: 3, Name: NULL, Age: NULL"),
                out("-----------------"),
                out("Finished final read."),
            ],
            halt: None,
        }
    );
}

#[test]
fn report_on_a_read_that_failed_before_any_row() {
    assert_eq!(
        Task::Read { last: false }.report(failed("Token error: invalid object name")),
        Report {
            lines: vec![err("Error reading users: Token error: invalid object name")],
            halt: None,
        }
    );
}

#[test]
fn report_on_a_read_cut_short_by_a_column() {
    let answer = items(vec![
        ResultItem::Row(FetchedRow::complete(Some(1), Some("Alice".to_string()), Some(30))),
        ResultItem::Row(FetchedRow {
            id: Fetched::Value(2),
            name: Fetched::Unreadable(DbError::statement("Conversion error: name".to_string())),
            age: Fetched::Null,
        }),
        ResultItem::Row(FetchedRow::complete(Some(3), Some("Carol".to_string()), Some(28))),
    ]);
    assert_eq!(
        Task::Read { last: false }.report(answer),
        Report {
            lines: vec![
                out("--- User List ---"),
                out("ID: 1, Name: Alice, Age: 30"),
                err("Error reading users: Conversion error: name"),
            ],
            halt: None,
        }
    );
}

#[test]
fn failure_line_of_each_task() {
    let e = DbError::statement("x".to_string());
    assert_eq!(Task::Connect.failure(&e), err("Error: x"));
    assert_eq!(create("A").failure(&e), err("Error creating user: x"));
    assert_eq!(Task::Read { last: true }.failure(&e), err("Error reading users: x"));
    assert_eq!(Task::Update { id: 1, age: 2 }.failure(&e), err("Error updating user: x"));
    assert_eq!(Task::Delete { id: 1 }.failure(&e), err("Error deleting user: x"));
}

#[test]
fn line_constructors_pick_the_stream() {
    assert_eq!(Line::out("a".to_string()), out("a"));
    assert_eq!(Line::err("a".to_string()), err("a"));
    assert_ne!(Line::out("a".to_string()), err("a"));
}

#[test]
fn run_on_a_fresh_table() {
    let mut table = UserTable::new();
    let (written, halt) = run_on(&mut table);
    assert_eq!(halt, None);
    assert_eq!(
        written,
        vec![
            out("Connecting to database..."),
            out("Connected successfully."),
            out("Attempting to create user..."),
            out("User 'Alice' created."),
            out("User 'Bob' created."),
            out("\nReading users..."),
            out("--- User List ---"),
            out("ID: 1, Name: Alice, Age: 30"),
            out("ID: 2, Name: Bob, Age: 42"),
            out("-----------------"),
            out("Finished reading users."),
            out("\nAttempting to update user ID 1..."),
            out("User ID 1 updated."),
            out("\nAttempting to delete user ID 1..."),
            out("User ID 1 deleted."),
            out("\nFinal read of users..."),
            out("--- User List ---"),
            out("ID: 2, Name: Bob, Age: 42"),
            out("-----------------"),
            out("Finished final read."),
        ]
    );
}

#[test]
fn run_on_a_table_that_has_lost_user_one() {
    let mut table = UserTable::new();
    table.store("Old", None).unwrap();
    table.delete(1);
    let (written, halt) = run_on(&mut table);
    assert_eq!(halt, None);
    assert_eq!(
        written,
        vec![
            out("Connecting to database..."),
            out("Connected successfully."),
            out("Attempting to create user..."),
            out("User 'Alice' created."),
            out("User 'Bob' created."),
            out("\nReading users..."),
            out("--- User List ---"),
            out("ID: 2, Name: Alice, Age: 30"),
            out("ID: 3, Name: Bob, Age: 42"),
            out("-----------------"),
            out("Finished reading users."),
            out("\nAttempting to update user ID 1..."),
            out("User ID 1 not found for update."),
            out("\nAttempting to delete user ID 1..."),
            out("User ID 1 not found for deletion."),
            out("\nFinal read of users..."),
            out("--- User List ---"),
            out("ID: 2, Name: Alice, Age: 30"),
            out("ID: 3, Name: Bob, Age: 42"),
            out("-----------------"),
            out("Finished final read."),
        ]
    );
}

#[test]
fn run_goes_on_after_every_failed_statement() {
    let mut written = Vec::new();
    let mut halted = false;
    for step in demo_script() {
        let answer = match step.task {
            Task::Connect => counts(&[]),
            _ => failed("connection lost"),
        };
        let report = step.task.report(answer);
        halted = halted || report.halt.is_some();
        written.extend(report.lines);
    }
    assert!(!halted);
    assert_eq!(
        written,
        vec![
            out("Connected successfully."),
            err("Error creating user: connection lost"),
            err("Error creating user: connection lost"),
            err("Error reading users: connection lost"),
            err("Error updating user: connection lost"),
            err("Error deleting user: connection lost"),
            err("Error reading users: connection lost"),
        ]
    );
}
