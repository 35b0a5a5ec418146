use users_table::error::DbError;
use users_table::listing::{collect_rows, list_rows, read_users, Listing, ResultItem};
use users_table::record::{Fetched, FetchedRow, UserRecord};

fn row(id: i32, name: &str, age: Option<i32>) -> FetchedRow {
    FetchedRow::complete(Some(id), Some(name.to_string()), age)
}

fn record(id: i32, name: &str, age: Option<i32>) -> UserRecord {
    UserRecord { id: Some(id), name: Some(name.to_string()), age }
}

fn broken_row(text: &str) -> FetchedRow {
    FetchedRow {
        id: Fetched::Value(9),
        name: Fetched::Null,
        age: Fetched::Unreadable(DbError::statement(text.to_string())),
    }
}

fn texts(lines: &[&str]) -> Vec<String> {
    lines.iter().map(|l| l.to_string()).collect()
}

#[test]
fn read_of_an_empty_table_says_no_users_found() {
    let listing = read_users(Vec::new());
    assert_eq!(listing.records, Vec::<UserRecord>::new());
    assert_eq!(
        listing.lines,
        texts(&["--- User List ---", "No users found.", "-----------------"])
    );
    assert_eq!(listing.failure, None);
}

#[test]
fn read_of_an_answer_without_rows_says_no_users_found() {
    let listing = read_users(vec![ResultItem::Metadata, ResultItem::Metadata]);
    assert_eq!(listing.records.len(), 0);
    assert_eq!(
        listing.lines,
        texts(&["--- User List ---", "No users found.", "-----------------"])
    );
    assert_eq!(listing.failure, None);
}

#[test]
fn collect_rows_drops_what_is_not_a_row_and_keeps_the_order() {
    let items = vec![
        ResultItem::Metadata,
        ResultItem::Row(row(2, "Bob", Some(42))),
        ResultItem::Metadata,
        ResultItem::Row(row(1, "Alice", Some(30))),
        ResultItem::Row(row(3, "Carol", None)),
        ResultItem::Metadata,
    ];
    let rows = collect_rows(items);
    assert_eq!(
        rows,
        vec![row(2, "Bob", Some(42)), row(1, "Alice", Some(30)), row(3, "Carol", None)]
    );
}

#[test]
fn collect_rows_of_nothing_is_nothing() {
    assert_eq!(collect_rows(Vec::new()), Vec::<FetchedRow>::new());
    assert_eq!(collect_rows(vec![ResultItem::Metadata]), Vec::<FetchedRow>::new());
}

#[test]
fn read_lists_the_rows_in_the_order_of_the_answer() {
    let listing = read_users(vec![
        ResultItem::Metadata,
        ResultItem::Row(row(2, "Bob", Some(42))),
        ResultItem::Row(row(1, "Alice", Some(30))),
    ]);
    assert_eq!(
        listing,
        Listing {
            records: vec![record(2, "Bob", Some(42)), record(1, "Alice", Some(30))],
            lines: texts(&[
                "--- User List ---",
                "ID: 2, Name: Bob, Age: 42",
                "ID: 1, Name: Alice, Age: 30",
                "-----------------",
            ]),
            failure: None,
        }
    );
}

#[test]
fn read_shows_a_null_age_as_null() {
    let listing = read_users(vec![ResultItem::Row(row(5, "Eve", None))]);
    assert_eq!(listing.failure, None);
    assert_eq!(listing.records, vec![record(5, "Eve", None)]);
    assert_eq!(
        listing.lines,
        texts(&["--- User List ---", "ID: 5, Name: Eve, Age: NULL", "-----------------"])
    );
}

#[test]
fn listing_ends_before_the_footer_at_a_row_that_does_not_decode() {
    let rows = vec![
        row(1, "Alice", Some(30)),
        broken_row("Conversion error: age"),
        row(3, "Carol", Some(28)),
    ];
    let listing = list_rows(&rows);
    assert_eq!(listing.records, vec![record(1, "Alice", Some(30))]);
    assert_eq!(listing.lines, texts(&["--- User List ---", "ID: 1, Name: Alice, Age: 30"]));
    assert_eq!(listing.failure, Some(DbError::statement("Conversion error: age".to_string())));
}

#[test]
fn listing_of_a_first_row_that_does_not_decode_is_the_header_alone() {
    let rows = vec![broken_row("first"), broken_row("second")];
    let listing = list_rows(&rows);
    assert_eq!(listing.records, Vec::<UserRecord>::new());
    assert_eq!(listing.lines, texts(&["--- User List ---"]));
    assert_eq!(listing.failure, Some(DbError::statement("first".to_string())));
}

#[test]
fn listing_of_a_last_row_that_does_not_decode_has_no_footer() {
    let rows = vec![row(1, "Alice", Some(30)), row(2, "Bob", Some(42)), broken_row("last")];
    let listing = list_rows(&rows);
    assert_eq!(listing.records.len(), 2);
    assert_eq!(
        listing.lines,
        texts(&["--- User List ---", "ID: 1, Name: Alice, Age: 30", "ID: 2, Name: Bob, Age: 42"])
    );
    assert_eq!(listing.failure, Some(DbError::statement("last".to_string())));
}

#[test]
fn list_rows_of_no_rows_says_no_users_found() {
    let listing = list_rows(&Vec::new());
    assert_eq!(
        listing.lines,
        texts(&["--- User List ---", "No users found.", "-----------------"])
    );
    assert_eq!(listing.failure, None);
}
