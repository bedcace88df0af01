//! The five request handlers, as decisions between one table answer and the
//! next.
//!
//! A handler never touches the table. [`begin`] turns a request into the
//! first statement to run; [`resume`] takes what the table answered and
//! either asks for one more statement or finishes with the reply. Whoever
//! owns the table runs the statements in between. Only an update takes two
//! statements: it reads the current row, merges the patch over it and
//! writes the result back.

use vstd::prelude::*;
use crate::reply::{Reply, ReplyView};
use crate::statement::{Outcome, OutcomeView, Statement, StatementView};
use crate::todo::{merged, CreateTodo, UpdateTodo, UpdateTodoView};

verus! {

/// A request, after the transport has parsed path and body.
#[derive(Debug, Clone, PartialEq, Eq)]
pub enum Request {
    /// All items.
    List,
    /// A new item.
    Create { payload: CreateTodo },
    /// The item with this key.
    Get { id: i64 },
    /// A partial change of the item with this key.
    Update { id: i64, patch: UpdateTodo },
    /// Removal of the item with this key.
    Delete { id: i64 },
}

/// The mathematical value of a [`Request`].
pub enum RequestView {
    List,
    Create { title: Seq<char> },
    Get { id: int },
    Update { id: int, patch: UpdateTodoView },
    Delete { id: int },
}

impl View for Request {
    type V = RequestView;

    open spec fn view(&self) -> RequestView {
        match *self {
            Request::List => RequestView::List,
            Request::Create { payload } => RequestView::Create { title: payload@ },
            Request::Get { id } => RequestView::Get { id: id as int },
            Request::Update { id, patch } => RequestView::Update { id: id as int, patch: patch@ },
            Request::Delete { id } => RequestView::Delete { id: id as int },
        }
    }
}

/// Where an update stands.
#[derive(Debug, Clone, PartialEq, Eq)]
pub enum UpdateStage {
    /// The current row has been asked for; the patch waits to be merged.
    Reading { id: i64, patch: UpdateTodo },
    /// The merged row has been sent to the table.
    Writing,
}

/// The mathematical value of an [`UpdateStage`].
pub enum UpdateStageView {
    Reading { id: int, patch: UpdateTodoView },
    Writing,
}

impl View for UpdateStage {
    type V = UpdateStageView;

    open spec fn view(&self) -> UpdateStageView {
        match *self {
            UpdateStage::Reading { id, patch } => UpdateStageView::Reading {
                id: id as int,
                patch: patch@,
            },
            UpdateStage::Writing => UpdateStageView::Writing,
        }
    }
}

/// The handler that waits for the table's answer, with what it needs to go on.
#[derive(Debug, Clone, PartialEq, Eq)]
pub enum Pending {
    List,
    Create,
    Get,
    Update(UpdateStage),
    Delete,
}

/// The mathematical value of a [`Pending`].
pub enum PendingView {
    List,
    Create,
    Get,
    Update(UpdateStageView),
    Delete,
}

impl PendingView {
    /// How many more statements the waiting handler may still ask for.
    pub open spec fn remaining(self) -> nat {
        match self {
            PendingView::Update(UpdateStageView::Reading { .. }) => 1,
            _ => 0,
        }
    }
}

impl View for Pending {
    type V = PendingView;

    open spec fn view(&self) -> PendingView {
        match *self {
            Pending::List => PendingView::List,
            Pending::Create => PendingView::Create,
            Pending::Get => PendingView::Get,
            Pending::Update(stage) => PendingView::Update(stage@),
            Pending::Delete => PendingView::Delete,
        }
    }
}

/// What is to happen next for a request.
#[derive(Debug, Clone, PartialEq, Eq)]
pub enum Step {
    /// Run the statement and come back with its outcome and this `Pending`.
    Run(Statement, Pending),
    /// Send the reply; the request is done.
    Finish(Reply),
}

/// The mathematical value of a [`Step`].
pub enum StepView {
    Run(StatementView, PendingView),
    Finish(ReplyView),
}

impl StepView {
    /// How many statements are still to run, at most, before the reply.
    pub open spec fn remaining(self) -> nat {
        match self {
            StepView::Run(_, pending) => 1 + pending.remaining(),
            StepView::Finish(_) => 0,
        }
    }
}

impl View for Step {
    type V = StepView;

    open spec fn view(&self) -> StepView {
        match *self {
            Step::Run(statement, pending) => StepView::Run(statement@, pending@),
            Step::Finish(reply) => StepView::Finish(reply@),
        }
    }
}

/// The reply to a list request: the rows as the table gave them. Anything
/// but rows means the table failed.
pub open spec fn listed(outcome: OutcomeView) -> ReplyView {
    match outcome {
        OutcomeView::Rows(rows) => ReplyView::Todos(rows),
        _ => ReplyView::ServerError,
    }
}

/// The reply to a create request: the row as stored, key included. An insert
/// that returns no row has failed.
pub open spec fn created(outcome: OutcomeView) -> ReplyView {
    match outcome {
        OutcomeView::Row(row) => ReplyView::Todo(row),
        _ => ReplyView::ServerError,
    }
}

/// The reply to a request for one item: the row, or not-found where no row
/// has the key.
pub open spec fn fetched(outcome: OutcomeView) -> ReplyView {
    match outcome {
        OutcomeView::Row(row) => ReplyView::Todo(row),
        OutcomeView::NoRow => ReplyView::NotFound,
        _ => ReplyView::ServerError,
    }
}

/// The reply to a delete request: success whether or not a row went away.
pub open spec fn deleted(outcome: OutcomeView) -> ReplyView {
    match outcome {
        OutcomeView::Done => ReplyView::Empty,
        _ => ReplyView::ServerError,
    }
}

/// The next step of an update.
///
/// While reading: a row is merged with the patch and written back under
/// the key of the request; no row ends the update with not-found. While
/// writing: the row that the table hands back is the reply, and a row that
/// vanished between the two statements is not-found as well.
pub open spec fn updated(stage: UpdateStageView, outcome: OutcomeView) -> StepView {
    match stage {
        UpdateStageView::Reading { id, patch } => match outcome {
            OutcomeView::Row(current) => StepView::Run(
                StatementView::Update {
                    id,
                    title: merged(current, patch).title,
                    completed: merged(current, patch).completed,
                },
                PendingView::Update(UpdateStageView::Writing),
            ),
            OutcomeView::NoRow => StepView::Finish(ReplyView::NotFound),
            _ => StepView::Finish(ReplyView::ServerError),
        },
        UpdateStageView::Writing => StepView::Finish(fetched(outcome)),
    }
}

/// The first step for a request: the statement that opens it.
pub open spec fn first_step(request: RequestView) -> StepView {
    match request {
        RequestView::List => StepView::Run(StatementView::SelectAll, PendingView::List),
        RequestView::Create { title } => StepView::Run(
            StatementView::Insert { title },
            PendingView::Create,
        ),
        RequestView::Get { id } => StepView::Run(
            StatementView::SelectById { id },
            PendingView::Get,
        ),
        RequestView::Update { id, patch } => StepView::Run(
            StatementView::SelectById { id },
            PendingView::Update(UpdateStageView::Reading { id, patch }),
        ),
        RequestView::Delete { id } => StepView::Run(
            StatementView::DeleteById { id },
            PendingView::Delete,
        ),
    }
}

/// The step that follows when the table has answered the waiting handler.
pub open spec fn next_step(pending: PendingView, outcome: OutcomeView) -> StepView {
    match pending {
        PendingView::List => StepView::Finish(listed(outcome)),
        PendingView::Create => StepView::Finish(created(outcome)),
        PendingView::Get => StepView::Finish(fetched(outcome)),
        PendingView::Update(stage) => updated(stage, outcome),
        PendingView::Delete => StepView::Finish(deleted(outcome)),
    }
}

/// Finishes a list request with what the table answered.
pub fn list_todos(outcome: Outcome) -> (reply: Reply)
    ensures
        reply@ == listed(outcome@),
{
    match outcome {
        Outcome::Rows(rows) => Reply::Todos(rows),
        _ => Reply::ServerError,
    }
}

/// Finishes a create request with what the table answered.
pub fn create_todo(outcome: Outcome) -> (reply: Reply)
    ensures
        reply@ == created(outcome@),
{
    match outcome {
        Outcome::Row(row) => Reply::Todo(row),
        _ => Reply::ServerError,
    }
}

/// Finishes a request for one item with what the table answered.
pub fn get_todo(outcome: Outcome) -> (reply: Reply)
    ensures
        reply@ == fetched(outcome@),
{
    match outcome {
        Outcome::Row(row) => Reply::Todo(row),
        Outcome::NoRow => Reply::NotFound,
        _ => Reply::ServerError,
    }
}

/// Takes an update one step further with what the table answered.
pub fn update_todo(stage: UpdateStage, outcome: Outcome) -> (step: Step)
    ensures
        step@ == updated(stage@, outcome@),
{
    match stage {
        UpdateStage::Reading { id, patch } => match outcome {
            Outcome::Row(current) => {
                let row = patch.apply(current);
                Step::Run(
                    Statement::Update { id, title: row.title, completed: row.completed },
                    Pending::Update(UpdateStage::Writing),
                )
            },
            Outcome::NoRow => Step::Finish(Reply::NotFound),
            _ => Step::Finish(Reply::ServerError),
        },
        UpdateStage::Writing => Step::Finish(get_todo(outcome)),
    }
}

/// Finishes a delete request with what the table answered.
pub fn delete_todo(outcome: Outcome) -> (reply: Reply)
    ensures
        reply@ == deleted(outcome@),
{
    match outcome {
        Outcome::Done => Reply::Empty,
        _ => Reply::ServerError,
    }
}

/// Opens a request: the statement to run first, and the handler that waits
/// for its outcome.
pub fn begin(request: Request) -> (step: Step)
    ensures
        step@ == first_step(request@),
{
    match request {
        Request::List => Step::Run(Statement::SelectAll, Pending::List),
        Request::Create { payload } => Step::Run(
            Statement::Insert { title: payload.title },
            Pending::Create,
        ),
        Request::Get { id } => Step::Run(Statement::SelectById { id }, Pending::Get),
        Request::Update { id, patch } => Step::Run(
            Statement::SelectById { id },
            Pending::Update(UpdateStage::Reading { id, patch }),
        ),
        Request::Delete { id } => Step::Run(Statement::DeleteById { id }, Pending::Delete),
    }
}

/// Hands the table's answer to the handler that waits for it.
pub fn resume(pending: Pending, outcome: Outcome) -> (step: Step)
    ensures
        step@ == next_step(pending@, outcome@),
{
    match pending {
        Pending::List => Step::Finish(list_todos(outcome)),
        Pending::Create => Step::Finish(create_todo(outcome)),
        Pending::Get => Step::Finish(get_todo(outcome)),
        Pending::Update(stage) => update_todo(stage, outcome),
        Pending::Delete => Step::Finish(delete_todo(outcome)),
    }
}

} // verus!
