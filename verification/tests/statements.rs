use users_table::statement::{rows_affected, Param, Statement};

#[test]
fn insert_binds_name_then_age() {
    let s = Statement::insert("Alice", 30);
    assert_eq!(s, Statement::Insert { name: "Alice".to_string(), age: 30 });
    assert_eq!(s.sql(), "INSERT INTO Users (Name, Age) VALUES (@P1, @P2);");
    assert_eq!(s.params(), vec![Param::Text("Alice".to_string()), Param::Int(30)]);
    assert!(!s.is_query());
}

#[test]
fn select_binds_nothing() {
    let s = Statement::select();
    assert_eq!(s, Statement::Select);
    assert_eq!(s.sql(), "SELECT ID, Name, Age FROM Users;");
    assert_eq!(s.params(), Vec::<Param>::new());
    assert!(s.is_query());
}

#[test]
fn update_binds_age_then_identifier() {
    let s = Statement::update(1, 35);
    assert_eq!(s, Statement::Update { id: 1, age: 35 });
    assert_eq!(s.sql(), "UPDATE Users SET Age = @P1 WHERE ID = @P2;");
    assert_eq!(s.params(), vec![Param::Int(35), Param::Int(1)]);
    assert!(!s.is_query());
}

#[test]
fn delete_binds_the_identifier() {
    let s = Statement::delete(17);
    assert_eq!(s, Statement::Delete { id: 17 });
    assert_eq!(s.sql(), "DELETE FROM Users WHERE ID = @P1;");
    assert_eq!(s.params(), vec![Param::Int(17)]);
    assert!(!s.is_query());
}

#[test]
fn rows_affected_is_the_first_count() {
    assert_eq!(rows_affected(&[1]), 1);
    assert_eq!(rows_affected(&[3, 5]), 3);
    assert_eq!(rows_affected(&[0, 9]), 0);
    assert_eq!(rows_affected(&[u64::MAX]), u64::MAX);
}

#[test]
fn rows_affected_of_no_count_is_zero() {
    assert_eq!(rows_affected(&[]), 0);
}
