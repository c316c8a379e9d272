//! BSON documents, as far as this library writes them: the filter that
//! selects a task and the update that rewrites part of it.

use crate::task::{TaskView, UpdateTaskRequest, UpdateTaskRequestView};
use mongodb::bson::Document;
use vstd::prelude::*;

verus! {

/// `mongodb::bson::Document`, taken as it is: nothing is known of a
/// document but what `doc_fields` says of it.
#[verifier::external_type_specification]
#[verifier::external_body]
pub struct ExDocument(mongodb::bson::Document);

/// What a document holds under one key.
pub enum FieldValue {
    /// A string.
    Text(Seq<char>),
    /// An embedded document, by its own fields.
    Fields(Map<Seq<char>, FieldValue>),
    /// A value of any other BSON type.
    Other,
}

/// The fields of a document: what it holds under each of its keys. The
/// order in which the document keeps its keys is not part of this.
pub uninterp spec fn doc_fields(d: Document) -> Map<Seq<char>, FieldValue>;

/// The fields of a document that holds nothing.
pub open spec fn no_fields() -> Map<Seq<char>, FieldValue> {
    Map::empty()
}

/// `Document::new` gives a document without any field.
pub assume_specification[ mongodb::bson::Document::new ]() -> (d: Document)
    ensures
        doc_fields(d) == no_fields(),
;

/// `Document::is_empty` tells whether the document has no field at all.
pub assume_specification[ mongodb::bson::Document::is_empty ](d: &Document) -> (empty: bool)
    ensures
        empty == (doc_fields(*d) == no_fields()),
;

/// `Document::insert` with a string value: afterwards the document holds
/// that string under `key`, in place of whatever it held there, and every
/// other field as before.
#[verifier::external_body]
fn insert_text(d: &mut Document, key: &str, value: &str)
    ensures
        doc_fields(*final(d)) == doc_fields(*old(d)).insert(key@, FieldValue::Text(value@)),
{
    d.insert(key, value);
}

/// `Document::insert` with a document value: afterwards the document
/// holds `value` under `key`, in place of whatever it held there, and every
/// other field as before.
#[verifier::external_body]
fn insert_fields(d: &mut Document, key: &str, value: Document)
    ensures
        doc_fields(*final(d)) == doc_fields(*old(d)).insert(
            key@,
            FieldValue::Fields(doc_fields(value)),
        ),
{
    d.insert(key, value);
}

/// The fields of the filter that selects the task with the given id.
pub open spec fn task_filter(task_id: Seq<char>) -> Map<Seq<char>, FieldValue> {
    no_fields().insert("taskId"@, FieldValue::Text(task_id))
}

/// Builds the filter that selects the task with the given id.
pub fn filter_by_task_id(task_id: &str) -> (filter: Document)
    ensures
        doc_fields(filter) == task_filter(task_id@),
{
    let mut filter = Document::new();
    insert_text(&mut filter, "taskId", task_id);
    filter
}

/// The fields that an update request asks to write: the text where it
/// gives one, the column where it gives one, and no other.
pub open spec fn changes(request: UpdateTaskRequestView) -> Map<Seq<char>, FieldValue> {
    let with_text = match request.text {
        Some(text) => no_fields().insert("text"@, FieldValue::Text(text)),
        None => no_fields(),
    };
    match request.column {
        Some(column) => with_text.insert("column"@, FieldValue::Text(column)),
        None => with_text,
    }
}

/// The fields of the update that sets `changes` and touches nothing else.
pub open spec fn set_command(changes: Map<Seq<char>, FieldValue>) -> Map<Seq<char>, FieldValue> {
    no_fields().insert("$set"@, FieldValue::Fields(changes))
}

/// The task that a stored task becomes when `changes` are set on it: the
/// text and the column are replaced where `changes` names them with a
/// string, and everything else stays.
pub open spec fn updated(task: TaskView, changes: Map<Seq<char>, FieldValue>) -> TaskView {
    TaskView {
        id: task.id,
        task_id: task.task_id,
        text: if changes.contains_key("text"@) && changes["text"@] is Text {
            changes["text"@]->Text_0
        } else {
            task.text
        },
        column: if changes.contains_key("column"@) && changes["column"@] is Text {
            changes["column"@]->Text_0
        } else {
            task.column
        },
    }
}

/// Collects the fields that `request` asks to write.
pub fn update_set(request: &UpdateTaskRequest) -> (set: Document)
    ensures
        doc_fields(set) == changes(request@),
{
    let mut set = Document::new();
    if let Some(text) = &request.text {
        insert_text(&mut set, "text", text.as_str());
    }
    if let Some(column) = &request.column {
        insert_text(&mut set, "column", column.as_str());
    }
    set
}

/// Wraps a set of fields into the update that sets them.
pub fn set_update(set: Document) -> (update: Document)
    ensures
        doc_fields(update) == set_command(doc_fields(set)),
{
    let mut update = Document::new();
    insert_fields(&mut update, "$set", set);
    update
}

/// An update request names no field exactly when it gives neither a text
/// nor a column.
pub proof fn lemma_changes_empty(request: UpdateTaskRequestView)
    ensures
        changes(request) == no_fields() <==> request.text is None && request.column is None,
{
    if request.column is Some {
        assert(changes(request).contains_key("column"@));
    } else if request.text is Some {
        assert(changes(request).contains_key("text"@));
    }
}

/// Setting the changes of a request gives a task the text and the column
/// that the request carries, and leaves it what the request does not carry.
/// The identifiers stay in every case.
pub proof fn lemma_updated_fields(task: TaskView, request: UpdateTaskRequestView)
    ensures
        updated(task, changes(request)).id == task.id,
        updated(task, changes(request)).task_id == task.task_id,
        updated(task, changes(request)).text == match request.text {
            Some(text) => text,
            None => task.text,
        },
        updated(task, changes(request)).column == match request.column {
            Some(column) => column,
            None => task.column,
        },
{
    reveal_strlit("text");
    reveal_strlit("column");
    assert("text"@.len() == 4);
    assert("column"@.len() == 6);
}

} // verus!
