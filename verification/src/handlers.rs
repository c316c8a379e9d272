//! The five requests of the service: what each asks of the store, and what
//! is answered for each thing the store reports back.
//!
//! A request that needs the store is handled in steps. Each step is a
//! function here; the driver runs the store operation between two steps
//! and hands its outcome to the next one.

use crate::board::{
    board_of, group_tasks, lane, lemma_listed_in_own_lane_only, lemma_readable_push, readable,
    BoardView, Record,
};
use crate::clock::current_millis;
use crate::document::{
    changes, doc_fields, filter_by_task_id, lemma_changes_empty, lemma_updated_fields, no_fields,
    set_command, set_update, task_filter, update_set, updated, FieldValue,
};
use crate::reply::{
    board_reply, confirmation, failure, healthy, task_reply, Body, Reply, Status,
};
use crate::task::{
    lemma_column_of_label, new_task, Column, CreateTaskRequest, Task, TaskView,
    UpdateTaskRequest, UpdateTaskRequestView,
};
use mongodb::bson::Document;
use vstd::prelude::*;

verus! {

/// The store could not carry out an operation.
#[derive(Clone, Copy, Debug, PartialEq, Eq)]
pub struct StorageFailure;

/// Answers the health check. The answer is fixed: it takes nothing from
/// the store and says nothing of it.
pub fn health_check() -> (reply: Reply)
    ensures
        reply@ == healthy(),
{
    Reply {
        status: Status::Success,
        body: Body::Health {
            status: String::from_str("healthy"),
            service: String::from_str("kanban-backend"),
        },
    }
}

/// Answers the listing of all tasks from a scan of the store: the board
/// of the readable tasks, or a server error when the scan failed as a
/// whole.
pub fn get_tasks(scan: Result<Vec<Record>, StorageFailure>) -> (reply: Reply)
    ensures
        reply@ == match scan {
            Ok(records) => board_reply(board_of(readable(records.deep_view()))),
            Err(_) => failure(Status::InternalServerError, "Failed to fetch tasks"@),
        },
{
    match scan {
        Ok(records) => Reply { status: Status::Success, body: Body::Board(group_tasks(records)) },
        Err(_) => Reply::fail(Status::InternalServerError, "Failed to fetch tasks"),
    }
}

/// Makes the task that a create request asks for, with an identifier
/// taken from the clock. The task is the one that `Task::new` makes for
/// the time of the call, whatever that time is.
pub fn create_task(request: CreateTaskRequest) -> (task: Task)
    ensures
        exists|millis: int|
            i64::MIN <= millis <= i64::MAX && task@ == #[trigger] new_task(request.text@, millis),
{
    let millis: i64 = current_millis();
    Task::new(request.text, millis)
}

/// Answers a create request once the store has been asked to insert
/// the task: the task itself, or a server error when the insert failed.
pub fn create_task_reply(task: Task, stored: Result<(), StorageFailure>) -> (reply: Reply)
    ensures
        reply@ == match stored {
            Ok(_) => task_reply(Status::Created, task@),
            Err(_) => failure(Status::InternalServerError, "Failed to create task"@),
        },
{
    match stored {
        Ok(_) => Reply { status: Status::Created, body: Body::Task(task) },
        Err(_) => Reply::fail(Status::InternalServerError, "Failed to create task"),
    }
}

/// What an update asks of the store.
#[derive(Debug, PartialEq)]
pub struct UpdatePlan {
    /// Selects the task to update, and later to read back.
    pub filter: Document,
    /// Sets the fields that the request carries.
    pub update: Document,
}

/// Starts an update. A request that carries neither a text nor a column
/// is refused with a client error before the store is asked anything;
/// any other gets the plan that sets exactly the fields it carries on the
/// task with the given identifier.
pub fn update_task(task_id: &str, request: &UpdateTaskRequest) -> (step: Result<UpdatePlan, Reply>)
    ensures
        match step {
            Ok(plan) => {
                &&& request@.text is Some || request@.column is Some
                &&& doc_fields(plan.filter) == task_filter(task_id@)
                &&& doc_fields(plan.update) == set_command(changes(request@))
            },
            Err(reply) => {
                &&& request@.text is None
                &&& request@.column is None
                &&& reply@ == failure(Status::BadRequest, "No fields to update"@)
            },
        },
{
    let filter = filter_by_task_id(task_id);
    let set = update_set(request);
    proof {
        lemma_changes_empty(request@);
    }
    if set.is_empty() {
        return Err(Reply::fail(Status::BadRequest, "No fields to update"));
    }
    Ok(UpdatePlan { filter, update: set_update(set) })
}

/// Goes on with an update once the store has applied the plan and
/// reported how many tasks matched. With at least one match the task is
/// to be read back next, and nothing is answered yet; with none the task
/// does not exist; a failure of the store is a server error.
pub fn update_task_applied(outcome: Result<u64, StorageFailure>) -> (answer: Option<Reply>)
    ensures
        match outcome {
            Ok(matched) => if matched == 0 {
                answer matches Some(reply) && reply@ == failure(
                    Status::NotFound,
                    "Task not found"@,
                )
            } else {
                answer is None
            },
            Err(_) => answer matches Some(reply) && reply@ == failure(
                Status::InternalServerError,
                "Failed to update task"@,
            ),
        },
{
    match outcome {
        Ok(matched) => {
            if matched == 0 {
                Some(Reply::fail(Status::NotFound, "Task not found"))
            } else {
                None
            }
        },
        Err(_) => Some(Reply::fail(Status::InternalServerError, "Failed to update task")),
    }
}

/// Answers an update once the store has been asked to read the task
/// back: the task as it now is; a not-found answer of its own when the
/// task is gone in the meantime; a server error when the read failed.
pub fn update_task_reply(found: Result<Option<Task>, StorageFailure>) -> (reply: Reply)
    ensures
        reply@ == match found {
            Ok(Some(task)) => task_reply(Status::Success, task@),
            Ok(None) => failure(Status::NotFound, "Task not found after update"@),
            Err(_) => failure(Status::InternalServerError, "Failed to fetch updated task"@),
        },
{
    match found {
        Ok(Some(task)) => Reply { status: Status::Success, body: Body::Task(task) },
        Ok(None) => Reply::fail(Status::NotFound, "Task not found after update"),
        Err(_) => Reply::fail(Status::InternalServerError, "Failed to fetch updated task"),
    }
}

/// Starts a delete: the filter that selects the task to remove.
pub fn delete_task(task_id: &str) -> (filter: Document)
    ensures
        doc_fields(filter) == task_filter(task_id@),
{
    filter_by_task_id(task_id)
}

/// Answers a delete once the store has reported how many tasks it
/// removed: a confirmation when it removed one, not found when it removed
/// none, a server error when it failed.
pub fn delete_task_reply(outcome: Result<u64, StorageFailure>) -> (reply: Reply)
    ensures
        reply@ == match outcome {
            Ok(deleted) => if deleted == 0 {
                failure(Status::NotFound, "Task not found"@)
            } else {
                confirmation("Task deleted successfully"@)
            },
            Err(_) => failure(Status::InternalServerError, "Failed to delete task"@),
        },
{
    match outcome {
        Ok(deleted) => {
            if deleted == 0 {
                Reply::fail(Status::NotFound, "Task not found")
            } else {
                Reply {
                    status: Status::Success,
                    body: Body::Message(String::from_str("Task deleted successfully")),
                }
            }
        },
        Err(_) => Reply::fail(Status::InternalServerError, "Failed to delete task"),
    }
}

/// A store that holds one newly created task and nothing else lists it
/// under `todo`, and lists nothing under the other two lanes.
pub proof fn lemma_created_task_is_listed_under_todo(text: Seq<char>, millis: int)
    ensures
        board_of(readable(seq![Some(new_task(text, millis))])) == (BoardView {
            todo: seq![new_task(text, millis)],
            active: Seq::empty(),
            completed: Seq::empty(),
        }),
{
    let task = new_task(text, millis);
    let none = Seq::<Option<TaskView>>::empty();
    reveal(Seq::filter);
    assert(readable(none) =~= Seq::<TaskView>::empty());
    assert(none.push(Some(task)) =~= seq![Some(task)]);
    lemma_readable_push(none, Some(task));
    assert(Seq::<TaskView>::empty().push(task) =~= seq![task]);
}

/// An update that carries a column and no text sets the column and
/// nothing else: the task keeps its text and both identifiers. When the
/// new column is one of the three lanes, a scan shows the updated task on
/// that lane exactly when it holds it, and on no other lane.
pub proof fn lemma_column_update_moves_task(
    task: TaskView,
    column: Column,
    records: Seq<Option<TaskView>>,
)
    ensures
        ({
            let request = UpdateTaskRequestView { text: None, column: Some(column.label()) };
            let after = updated(task, changes(request));
            &&& changes(request) == no_fields().insert(
                "column"@,
                FieldValue::Text(column.label()),
            )
            &&& after == (TaskView { column: column.label(), ..task })
            &&& lane(readable(records), column).contains(after) <==> records.contains(Some(after))
            &&& forall|other: Column|
                other != column ==> !(#[trigger] lane(readable(records), other)).contains(after)
        }),
{
    let request = UpdateTaskRequestView { text: None, column: Some(column.label()) };
    let after = updated(task, changes(request));
    lemma_updated_fields(task, request);
    lemma_column_of_label(column);
    lemma_listed_in_own_lane_only(records, after, column);
}

} // verus!
