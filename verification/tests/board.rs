use kanban_backend::board::{group_tasks, Record, TasksResponse};
use kanban_backend::task::Task;
use mongodb::bson::oid::ObjectId;

fn task(task_id: &str, text: &str, column: &str) -> Task {
    Task {
        id: None,
        task_id: String::from(task_id),
        text: String::from(text),
        column: String::from(column),
    }
}

#[test]
fn new_board_is_empty() {
    let board = TasksResponse::new();
    assert!(board.todo.is_empty());
    assert!(board.active.is_empty());
    assert!(board.completed.is_empty());
}

#[test]
fn place_puts_task_last_in_its_lane() {
    let mut board = TasksResponse::new();
    board.place(task("task-1", "a", "todo"));
    board.place(task("task-2", "b", "active"));
    board.place(task("task-3", "c", "todo"));
    board.place(task("task-4", "d", "completed"));
    assert_eq!(board.todo, vec![task("task-1", "a", "todo"), task("task-3", "c", "todo")]);
    assert_eq!(board.active, vec![task("task-2", "b", "active")]);
    assert_eq!(board.completed, vec![task("task-4", "d", "completed")]);
}

#[test]
fn place_drops_unrecognized_column() {
    let mut board = TasksResponse::new();
    board.place(task("task-1", "a", "archived"));
    board.place(task("task-2", "b", ""));
    board.place(task("task-3", "c", "TODO"));
    assert_eq!(board, TasksResponse::new());
}

#[test]
fn group_of_nothing_is_empty_board() {
    assert_eq!(group_tasks(Vec::new()), TasksResponse::new());
}

#[test]
fn group_keeps_scan_order_within_each_lane() {
    let records = vec![
        Record::Read(task("task-5", "e", "active")),
        Record::Read(task("task-1", "a", "todo")),
        Record::Read(task("task-9", "i", "completed")),
        Record::Read(task("task-3", "c", "active")),
        Record::Read(task("task-2", "b", "todo")),
        Record::Read(task("task-4", "d", "active")),
    ];
    let board = group_tasks(records);
    assert_eq!(board.todo, vec![task("task-1", "a", "todo"), task("task-2", "b", "todo")]);
    assert_eq!(
        board.active,
        vec![
            task("task-5", "e", "active"),
            task("task-3", "c", "active"),
            task("task-4", "d", "active"),
        ]
    );
    assert_eq!(board.completed, vec![task("task-9", "i", "completed")]);
}

#[test]
fn group_skips_unreadable_records() {
    let records = vec![
        Record::Unreadable,
        Record::Read(task("task-1", "a", "todo")),
        Record::Unreadable,
        Record::Read(task("task-2", "b", "completed")),
        Record::Unreadable,
    ];
    let board = group_tasks(records);
    assert_eq!(board.todo, vec![task("task-1", "a", "todo")]);
    assert!(board.active.is_empty());
    assert_eq!(board.completed, vec![task("task-2", "b", "completed")]);
}

#[test]
fn group_lists_archived_task_nowhere() {
    let records = vec![
        Record::Read(task("task-1", "kept", "todo")),
        Record::Read(task("task-2", "gone", "archived")),
    ];
    let board = group_tasks(records);
    let archived = task("task-2", "gone", "archived");
    assert!(!board.todo.contains(&archived));
    assert!(!board.active.contains(&archived));
    assert!(!board.completed.contains(&archived));
    assert_eq!(board.todo.len() + board.active.len() + board.completed.len(), 1);
}

#[test]
fn group_carries_store_ids_through() {
    let id = ObjectId::from_bytes([1, 2, 3, 4, 5, 6, 7, 8, 9, 10, 11, 12]);
    let mut stored = task("task-1", "a", "active");
    stored.id = Some(id);
    let board = group_tasks(vec![Record::Read(stored.clone())]);
    assert_eq!(board.active, vec![stored]);
    assert_eq!(board.active[0].id, Some(id));
}

#[test]
fn group_keeps_equal_tasks_apart() {
    let records = vec![
        Record::Read(task("task-1", "a", "todo")),
        Record::Read(task("task-1", "a", "todo")),
    ];
    let board = group_tasks(records);
    assert_eq!(board.todo.len(), 2);
}
