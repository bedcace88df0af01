//! What the service sends back for a request.

use vstd::prelude::*;
use crate::todo::{Todo, TodoView};

verus! {

/// The reply to one request: a body on success, or the kind of failure.
#[derive(Debug, Clone, PartialEq, Eq)]
pub enum Reply {
    /// Success, with every item as the body.
    Todos(Vec<Todo>),
    /// Success, with one item as the body.
    Todo(Todo),
    /// Success, with an empty body.
    Empty,
    /// No item has the key that the request named.
    NotFound,
    /// The table failed or answered out of turn; nothing of it is passed on.
    ServerError,
}

/// The mathematical value of a [`Reply`].
pub enum ReplyView {
    Todos(Seq<TodoView>),
    Todo(TodoView),
    Empty,
    NotFound,
    ServerError,
}

impl ReplyView {
    /// The HTTP status that goes with a reply: 200 for the three successes,
    /// 404 where the item is missing, 500 for a failure of the service itself.
    pub open spec fn status(self) -> int {
        match self {
            ReplyView::Todos(_) => 200,
            ReplyView::Todo(_) => 200,
            ReplyView::Empty => 200,
            ReplyView::NotFound => 404,
            ReplyView::ServerError => 500,
        }
    }
}

impl View for Reply {
    type V = ReplyView;

    open spec fn view(&self) -> ReplyView {
        match *self {
            Reply::Todos(todos) => ReplyView::Todos(todos.deep_view()),
            Reply::Todo(todo) => ReplyView::Todo(todo@),
            Reply::Empty => ReplyView::Empty,
            Reply::NotFound => ReplyView::NotFound,
            Reply::ServerError => ReplyView::ServerError,
        }
    }
}

impl Reply {
    /// The HTTP status to send with this reply.
    pub fn status_code(&self) -> (code: u16)
        ensures
            code == self@.status(),
    {
        match self {
            Reply::Todos(_) => 200,
            Reply::Todo(_) => 200,
            Reply::Empty => 200,
            Reply::NotFound => 404,
            Reply::ServerError => 500,
        }
    }
}

} // verus!
