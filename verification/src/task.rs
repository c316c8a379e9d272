//! Tasks, the columns of the board and the identifiers that tasks go by.

use crate::text::{
    is_integer_text, lemma_signed_decimal_injective, lemma_signed_decimal_is_integer_text,
    push_signed_decimal, signed_decimal, str_eq,
};
use mongodb::bson::oid::ObjectId;
use vstd::prelude::*;
use vstd::string::*;

verus! {

/// `mongodb::bson::oid::ObjectId`, taken as it is: a task carries the
/// identifier that the store gave it, and nothing here looks inside.
#[verifier::external_type_specification]
#[verifier::external_body]
pub struct ExObjectId(mongodb::bson::oid::ObjectId);

/// One of the three lanes of the board.
#[derive(Clone, Copy, Debug, PartialEq, Eq, Structural)]
pub enum Column {
    Todo,
    Active,
    Completed,
}

impl Column {
    /// The name under which a task's `column` field refers to this lane.
    pub open spec fn label(self) -> Seq<char> {
        match self {
            Column::Todo => "todo"@,
            Column::Active => "active"@,
            Column::Completed => "completed"@,
        }
    }

    /// The lane that a column name refers to. A name that is none of the
    /// three labels refers to no lane.
    pub open spec fn of(name: Seq<char>) -> Option<Column> {
        if name == "todo"@ {
            Some(Column::Todo)
        } else if name == "active"@ {
            Some(Column::Active)
        } else if name == "completed"@ {
            Some(Column::Completed)
        } else {
            None
        }
    }

    /// The name of this lane.
    pub fn name(self) -> (name: &'static str)
        ensures
            name@ == self.label(),
    {
        match self {
            Column::Todo => "todo",
            Column::Active => "active",
            Column::Completed => "completed",
        }
    }

    /// Finds the lane that a column name refers to, if it refers to one.
    pub fn recognize(name: &str) -> (column: Option<Column>)
        ensures
            column == Column::of(name@),
    {
        if str_eq(name, "todo") {
            Some(Column::Todo)
        } else if str_eq(name, "active") {
            Some(Column::Active)
        } else if str_eq(name, "completed") {
            Some(Column::Completed)
        } else {
            None
        }
    }
}

/// The three labels are different names, so each refers to its own lane
/// and to no other.
pub proof fn lemma_column_of_label(column: Column)
    ensures
        Column::of(column.label()) == Some(column),
{
    reveal_strlit("todo");
    reveal_strlit("active");
    reveal_strlit("completed");
    assert("todo"@.len() == 4);
    assert("active"@.len() == 6);
    assert("completed"@.len() == 9);
}

/// A task as the store holds it.
#[derive(Clone, Debug, PartialEq)]
pub struct Task {
    /// The identifier that the store gave the document, once it has one.
    pub id: Option<ObjectId>,
    /// The identifier that clients know the task by.
    pub task_id: String,
    /// The text of the task.
    pub text: String,
    /// The name of the column that the task is in.
    pub column: String,
}

/// A task as a value: its fields, with each string by its characters.
pub struct TaskView {
    pub id: Option<ObjectId>,
    pub task_id: Seq<char>,
    pub text: Seq<char>,
    pub column: Seq<char>,
}

impl View for Task {
    type V = TaskView;

    open spec fn view(&self) -> TaskView {
        TaskView { id: self.id, task_id: self.task_id@, text: self.text@, column: self.column@ }
    }
}

impl DeepView for Task {
    type V = TaskView;

    open spec fn deep_view(&self) -> TaskView {
        self@
    }
}

/// The identifier of a task created at `millis` milliseconds after the
/// epoch: the word `task`, a hyphen and the number in decimal.
pub open spec fn task_id_text(millis: int) -> Seq<char> {
    "task-"@ + signed_decimal(millis)
}

/// Whether `id` has the form of a task identifier: `task-` followed by an
/// integer in decimal.
pub open spec fn is_task_id(id: Seq<char>) -> bool {
    &&& id.len() >= "task-"@.len()
    &&& id.take("task-"@.len() as int) == "task-"@
    &&& is_integer_text(id.skip("task-"@.len() as int))
}

/// The task that is created with the given text at the given time: it has
/// no store identifier yet and starts in the `todo` column.
pub open spec fn new_task(text: Seq<char>, millis: int) -> TaskView {
    TaskView { id: None, task_id: task_id_text(millis), text, column: Column::Todo.label() }
}

/// Writes the identifier of a task created at `millis`.
pub fn task_id_for(millis: i64) -> (id: String)
    ensures
        id@ == task_id_text(millis as int),
{
    let mut id = String::from_str("task-");
    push_signed_decimal(&mut id, millis);
    id
}

impl Task {
    /// Makes the task that is created with `text` at `millis`.
    pub fn new(text: String, millis: i64) -> (task: Task)
        ensures
            task@ == new_task(text@, millis as int),
    {
        Task {
            id: None,
            task_id: task_id_for(millis),
            text,
            column: String::from_str(Column::Todo.name()),
        }
    }
}

/// Every generated identifier has the form of a task identifier.
pub proof fn lemma_task_id_form(millis: int)
    ensures
        is_task_id(task_id_text(millis)),
{
    let prefix = "task-"@;
    let number = signed_decimal(millis);
    lemma_signed_decimal_is_integer_text(millis);
    assert((prefix + number).take(prefix.len() as int) =~= prefix);
    assert((prefix + number).skip(prefix.len() as int) =~= number);
}

/// Tasks created at different times get different identifiers.
pub proof fn lemma_task_ids_distinct(first: int, second: int)
    requires
        first != second,
    ensures
        task_id_text(first) != task_id_text(second),
{
    let prefix = "task-"@;
    if task_id_text(first) == task_id_text(second) {
        assert((prefix + signed_decimal(first)).skip(prefix.len() as int) =~= signed_decimal(
            first,
        ));
        assert((prefix + signed_decimal(second)).skip(prefix.len() as int) =~= signed_decimal(
            second,
        ));
        lemma_signed_decimal_injective(first, second);
    }
}

/// What a client sends to create a task.
#[derive(Clone, Debug, PartialEq)]
pub struct CreateTaskRequest {
    pub text: String,
}

/// What a client sends to update a task: a new text, a new column, both
/// or neither.
#[derive(Clone, Debug, PartialEq)]
pub struct UpdateTaskRequest {
    pub text: Option<String>,
    pub column: Option<String>,
}

/// An update request as a value.
pub struct UpdateTaskRequestView {
    pub text: Option<Seq<char>>,
    pub column: Option<Seq<char>>,
}

impl View for UpdateTaskRequest {
    type V = UpdateTaskRequestView;

    open spec fn view(&self) -> UpdateTaskRequestView {
        UpdateTaskRequestView {
            text: match self.text {
                Some(text) => Some(text@),
                None => None,
            },
            column: match self.column {
                Some(column) => Some(column@),
                None => None,
            },
        }
    }
}

} // verus!
