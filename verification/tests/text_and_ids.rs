use kanban_backend::task::{task_id_for, Column, Task};
use kanban_backend::text::{push_decimal, push_signed_decimal, str_eq};

#[test]
fn str_eq_tells_equal_from_different() {
    assert!(str_eq("todo", "todo"));
    assert!(str_eq("", ""));
    assert!(!str_eq("todo", "toda"));
    assert!(!str_eq("todo", "todo "));
    assert!(!str_eq("active", "Active"));
    assert!(str_eq("tâche", "tâche"));
    assert!(!str_eq("tâche", "tache"));
}

#[test]
fn push_decimal_writes_digits_after_what_is_there() {
    let mut out = String::from("n=");
    push_decimal(&mut out, 0);
    assert_eq!(out, "n=0");
    let mut out = String::new();
    push_decimal(&mut out, 7);
    assert_eq!(out, "7");
    let mut out = String::new();
    push_decimal(&mut out, 10);
    assert_eq!(out, "10");
    let mut out = String::new();
    push_decimal(&mut out, 1_700_000_000_123);
    assert_eq!(out, "1700000000123");
    let mut out = String::new();
    push_decimal(&mut out, u64::MAX);
    assert_eq!(out, "18446744073709551615");
}

#[test]
fn push_signed_decimal_writes_the_sign() {
    let mut out = String::new();
    push_signed_decimal(&mut out, -12);
    assert_eq!(out, "-12");
    let mut out = String::new();
    push_signed_decimal(&mut out, 0);
    assert_eq!(out, "0");
    let mut out = String::new();
    push_signed_decimal(&mut out, i64::MAX);
    assert_eq!(out, "9223372036854775807");
    let mut out = String::new();
    push_signed_decimal(&mut out, i64::MIN);
    assert_eq!(out, "-9223372036854775808");
}

#[test]
fn signed_decimal_agrees_with_std() {
    let samples: [i64; 9] = [0, 1, -1, 9, 10, 99, 100, -1000, 1_234_567_890_123];
    for n in samples {
        let mut out = String::new();
        push_signed_decimal(&mut out, n);
        assert_eq!(out, format!("{}", n));
    }
}

#[test]
fn task_id_is_prefix_and_millis() {
    assert_eq!(task_id_for(1_700_000_000_123), "task-1700000000123");
    assert_eq!(task_id_for(0), "task-0");
    assert_eq!(task_id_for(-5), "task--5");
}

#[test]
fn task_ids_of_different_times_differ() {
    assert_ne!(task_id_for(1_700_000_000_123), task_id_for(1_700_000_000_124));
    assert_ne!(task_id_for(5), task_id_for(-5));
    assert_ne!(task_id_for(1), task_id_for(10));
}

#[test]
fn column_names() {
    assert_eq!(Column::Todo.name(), "todo");
    assert_eq!(Column::Active.name(), "active");
    assert_eq!(Column::Completed.name(), "completed");
}

#[test]
fn column_recognize_knows_three_names_only() {
    assert_eq!(Column::recognize("todo"), Some(Column::Todo));
    assert_eq!(Column::recognize("active"), Some(Column::Active));
    assert_eq!(Column::recognize("completed"), Some(Column::Completed));
    assert_eq!(Column::recognize("archived"), None);
    assert_eq!(Column::recognize(""), None);
    assert_eq!(Column::recognize("Todo"), None);
    assert_eq!(Column::recognize("todo "), None);
}

#[test]
fn column_recognize_inverts_name() {
    for column in [Column::Todo, Column::Active, Column::Completed] {
        assert_eq!(Column::recognize(column.name()), Some(column));
    }
}

#[test]
fn new_task_starts_in_todo_without_store_id() {
    let task = Task::new(String::from("write tests"), 1_700_000_000_123);
    assert_eq!(task.id, None);
    assert_eq!(task.task_id, "task-1700000000123");
    assert_eq!(task.text, "write tests");
    assert_eq!(task.column, "todo");
}

#[test]
fn new_task_accepts_empty_text() {
    let task = Task::new(String::new(), 1);
    assert_eq!(task.text, "");
    assert_eq!(task.column, "todo");
    assert_eq!(task.task_id, "task-1");
}
