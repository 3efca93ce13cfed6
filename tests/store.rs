use todo_store::outcome::{create_result, error_status, health, mutation_result, status_code, StoreOutcome};
use todo_store::table::TodoTable;
use todo_store::todo::{Todo, TodoError};

fn todo(title: &str, message: &str) -> Todo {
    Todo::new(title.to_string(), message.to_string())
}

fn pairs(table: &TodoTable) -> Vec<(String, String)> {
    table.list().into_iter().map(|t| (t.title, t.message)).collect()
}

fn pair(title: &str, message: &str) -> (String, String) {
    (title.to_string(), message.to_string())
}

#[test]
fn create_update_delete_scenario() {
    let mut table = TodoTable::new();
    assert_eq!(table.create(todo("a", "x")), Ok(()));
    assert_eq!(pairs(&table), vec![pair("a", "x")]);
    assert_eq!(table.update(todo("a", "y")), Ok(()));
    assert_eq!(pairs(&table), vec![pair("a", "y")]);
    assert_eq!(table.delete(&"a".to_string()), Ok(()));
    assert_eq!(pairs(&table), Vec::<(String, String)>::new());
    assert_eq!(table.delete(&"a".to_string()), Err(TodoError::NotFound));
}

#[test]
fn empty_table_lists_nothing() {
    let table = TodoTable::new();
    assert!(table.list().is_empty());
    assert_eq!(table.len(), 0);
}

#[test]
fn fresh_create_is_listed() {
    let mut table = TodoTable::new();
    table.create(todo("b", "1")).unwrap();
    assert_eq!(table.create(todo("c", "2")), Ok(()));
    assert_eq!(pairs(&table), vec![pair("b", "1"), pair("c", "2")]);
}

#[test]
fn duplicate_create_is_refused_and_keeps_row() {
    let mut table = TodoTable::new();
    table.create(todo("a", "x")).unwrap();
    assert_eq!(table.create(todo("a", "other")), Err(TodoError::DuplicateTitle));
    assert_eq!(pairs(&table), vec![pair("a", "x")]);
}

#[test]
fn update_changes_only_that_message() {
    let mut table = TodoTable::new();
    table.create(todo("a", "1")).unwrap();
    table.create(todo("b", "2")).unwrap();
    table.create(todo("c", "3")).unwrap();
    assert_eq!(table.update(todo("b", "new")), Ok(()));
    assert_eq!(pairs(&table), vec![pair("a", "1"), pair("b", "new"), pair("c", "3")]);
}

#[test]
fn update_absent_is_not_found_and_changes_nothing() {
    let mut table = TodoTable::new();
    table.create(todo("a", "1")).unwrap();
    assert_eq!(table.update(todo("z", "new")), Err(TodoError::NotFound));
    assert_eq!(pairs(&table), vec![pair("a", "1")]);
}

#[test]
fn delete_removes_only_that_row() {
    let mut table = TodoTable::new();
    table.create(todo("a", "1")).unwrap();
    table.create(todo("b", "2")).unwrap();
    table.create(todo("c", "3")).unwrap();
    assert_eq!(table.delete(&"b".to_string()), Ok(()));
    assert_eq!(pairs(&table), vec![pair("a", "1"), pair("c", "3")]);
}

#[test]
fn delete_absent_is_not_found() {
    let mut table = TodoTable::new();
    table.create(todo("a", "1")).unwrap();
    assert_eq!(table.delete(&"q".to_string()), Err(TodoError::NotFound));
    assert_eq!(pairs(&table), vec![pair("a", "1")]);
}

#[test]
fn row_count_is_creates_minus_deletes() {
    let mut table = TodoTable::new();
    for i in 0..7 {
        table.create(todo(&format!("t{}", i), "m")).unwrap();
    }
    for i in 0..3 {
        table.delete(&format!("t{}", i * 2)).unwrap();
    }
    assert_eq!(table.list().len(), 4);
    assert_eq!(table.len(), 4);
}

#[test]
fn creates_with_distinct_titles_all_succeed() {
    let mut table = TodoTable::new();
    let results: Vec<_> = ["p", "q", "r", "s"].iter().map(|t| table.create(todo(t, "m"))).collect();
    assert!(results.iter().all(|r| *r == Ok(())));
    assert_eq!(table.len(), 4);
}

#[test]
fn creates_with_one_title_succeed_once() {
    let mut table = TodoTable::new();
    let results: Vec<_> = ["1", "2", "3"].iter().map(|m| table.create(todo("same", m))).collect();
    assert_eq!(
        results,
        vec![Ok(()), Err(TodoError::DuplicateTitle), Err(TodoError::DuplicateTitle)]
    );
    assert_eq!(pairs(&table), vec![pair("same", "1")]);
}

#[test]
fn empty_title_is_an_ordinary_title() {
    let mut table = TodoTable::new();
    assert_eq!(table.create(todo("", "m")), Ok(()));
    assert_eq!(table.create(todo("", "n")), Err(TodoError::DuplicateTitle));
    assert_eq!(table.delete(&String::new()), Ok(()));
}

#[test]
fn create_result_follows_affected_rows() {
    assert_eq!(create_result(StoreOutcome::Affected(1)), Ok(()));
    assert_eq!(create_result(StoreOutcome::Affected(0)), Err(TodoError::StoreError));
    assert_eq!(create_result(StoreOutcome::Affected(2)), Err(TodoError::StoreError));
    assert_eq!(create_result(StoreOutcome::UniqueViolation), Err(TodoError::DuplicateTitle));
    assert_eq!(create_result(StoreOutcome::Failed), Err(TodoError::StoreError));
}

#[test]
fn mutation_result_follows_affected_rows() {
    assert_eq!(mutation_result(StoreOutcome::Affected(1)), Ok(()));
    assert_eq!(mutation_result(StoreOutcome::Affected(0)), Err(TodoError::NotFound));
    assert_eq!(mutation_result(StoreOutcome::Affected(3)), Err(TodoError::StoreError));
    assert_eq!(mutation_result(StoreOutcome::Affected(u64::MAX)), Err(TodoError::StoreError));
    assert_eq!(mutation_result(StoreOutcome::UniqueViolation), Err(TodoError::StoreError));
    assert_eq!(mutation_result(StoreOutcome::Failed), Err(TodoError::StoreError));
}

#[test]
fn statuses_of_results() {
    assert_eq!(status_code(Ok(())), 200);
    assert_eq!(status_code(Err(TodoError::DuplicateTitle)), 409);
    assert_eq!(status_code(Err(TodoError::NotFound)), 404);
    assert_eq!(status_code(Err(TodoError::StoreError)), 500);
    assert_eq!(error_status(TodoError::StoreError), 500);
    assert_eq!(health(), 200);
}

#[test]
fn duplicate_copies_fields() {
    let a = todo("t", "m");
    let b = a.duplicate();
    assert_eq!((b.title, b.message), pair("t", "m"));
}
