//! What is answered to a client: a status and a body.

use crate::board::{BoardView, TasksResponse};
use crate::task::{Task, TaskView};
use vstd::prelude::*;

verus! {

/// The status of an answer.
#[derive(Clone, Copy, Debug, PartialEq, Eq, Structural)]
pub enum Status {
    Success,
    Created,
    BadRequest,
    NotFound,
    InternalServerError,
}

impl Status {
    /// The HTTP status code of this status.
    pub open spec fn number(self) -> int {
        match self {
            Status::Success => 200,
            Status::Created => 201,
            Status::BadRequest => 400,
            Status::NotFound => 404,
            Status::InternalServerError => 500,
        }
    }

    /// The HTTP status code of this status.
    pub fn code(self) -> (code: u16)
        ensures
            code == self.number(),
    {
        match self {
            Status::Success => 200,
            Status::Created => 201,
            Status::BadRequest => 400,
            Status::NotFound => 404,
            Status::InternalServerError => 500,
        }
    }
}

/// The body of an answer. Each variant is one JSON shape.
#[derive(Clone, Debug, PartialEq)]
pub enum Body {
    /// `{status, service}`
    Health { status: String, service: String },
    /// `{todo, active, completed}`
    Board(TasksResponse),
    /// One task.
    Task(Task),
    /// `{message}`
    Message(String),
    /// `{error}`
    Error(String),
}

/// A body as a value.
pub enum BodyView {
    Health { status: Seq<char>, service: Seq<char> },
    Board(BoardView),
    Task(TaskView),
    Message(Seq<char>),
    Error(Seq<char>),
}

impl View for Body {
    type V = BodyView;

    open spec fn view(&self) -> BodyView {
        match self {
            Body::Health { status, service } => BodyView::Health {
                status: status@,
                service: service@,
            },
            Body::Board(board) => BodyView::Board(board@),
            Body::Task(task) => BodyView::Task(task@),
            Body::Message(message) => BodyView::Message(message@),
            Body::Error(error) => BodyView::Error(error@),
        }
    }
}

/// An answer to a client.
#[derive(Clone, Debug, PartialEq)]
pub struct Reply {
    pub status: Status,
    pub body: Body,
}

/// An answer as a value.
pub struct ReplyView {
    pub status: Status,
    pub body: BodyView,
}

impl View for Reply {
    type V = ReplyView;

    open spec fn view(&self) -> ReplyView {
        ReplyView { status: self.status, body: self.body@ }
    }
}

/// The answer that reports a failure: the status and `{error}`.
pub open spec fn failure(status: Status, error: Seq<char>) -> ReplyView {
    ReplyView { status, body: BodyView::Error(error) }
}

/// The answer that carries one task.
pub open spec fn task_reply(status: Status, task: TaskView) -> ReplyView {
    ReplyView { status, body: BodyView::Task(task) }
}

/// The answer that confirms with `{message}`.
pub open spec fn confirmation(message: Seq<char>) -> ReplyView {
    ReplyView { status: Status::Success, body: BodyView::Message(message) }
}

/// The answer that carries the board.
pub open spec fn board_reply(board: BoardView) -> ReplyView {
    ReplyView { status: Status::Success, body: BodyView::Board(board) }
}

/// The answer of a service that is up.
pub open spec fn healthy() -> ReplyView {
    ReplyView {
        status: Status::Success,
        body: BodyView::Health { status: "healthy"@, service: "kanban-backend"@ },
    }
}

impl Reply {
    /// Reports a failure.
    pub fn fail(status: Status, error: &str) -> (reply: Reply)
        ensures
            reply@ == failure(status, error@),
    {
        Reply { status, body: Body::Error(String::from_str(error)) }
    }
}

} // verus!
