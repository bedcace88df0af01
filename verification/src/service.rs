//! The service as a whole: what each request is owed, and the loop that
//! serves it from a table.
//!
//! [`served`] says in one place what a request returns and what it does to
//! the table. [`run`] is what the handlers make of a request when the table
//! answers each statement as [`TableView::answer`] says; the two are proved
//! to agree, and [`serve`] is that loop on a [`TodoTable`].

use vstd::prelude::*;
use crate::handlers::{begin, first_step, next_step, resume, Request, RequestView, Step, StepView};
use crate::reply::{Reply, ReplyView};
use crate::table::{TableView, TodoTable};
use crate::todo::{merged, TodoView};

verus! {

/// A request served: the reply, and the table as the request left it.
pub struct Served {
    pub reply: ReplyView,
    pub table: TableView,
}

/// What a request is owed on a healthy table.
///
/// - List: every row, newest first; the table stays as it is.
/// - Create: a new row under the next key, with the title as given and not
///   completed, is stored and returned. The title is not inspected. Only with
///   the keys used up does the request fail, and then nothing is stored.
/// - Get: the row with the key, or not-found.
/// - Update: the row with the key, with each supplied field replaced, is
///   stored and returned; not-found, and no change, without such a row.
/// - Delete: success with an empty body, whether or not a row had the key.
pub open spec fn served(table: TableView, request: RequestView) -> Served {
    match request {
        RequestView::List => Served { reply: ReplyView::Todos(table.listing()), table },
        RequestView::Create { title } => if table.has_room() {
            Served { reply: ReplyView::Todo(table.next_row(title)), table: table.inserted(title) }
        } else {
            Served { reply: ReplyView::ServerError, table }
        },
        RequestView::Get { id } => if table.has(id) {
            Served { reply: ReplyView::Todo(table.row(id)), table }
        } else {
            Served { reply: ReplyView::NotFound, table }
        },
        RequestView::Update { id, patch } => if table.has(id) {
            let row = merged(table.row(id), patch);
            Served {
                reply: ReplyView::Todo(row),
                table: table.overwritten(id, row.title, row.completed),
            }
        } else {
            Served { reply: ReplyView::NotFound, table }
        },
        RequestView::Delete { id } => Served { reply: ReplyView::Empty, table: table.without(id) },
    }
}

/// Where the handlers end up from `step` when every statement they ask for
/// is run on `table`.
pub open spec fn run(table: TableView, step: StepView) -> Served
    decreases step.remaining(),
{
    match step {
        StepView::Finish(reply) => Served { reply, table },
        StepView::Run(statement, pending) => run(
            table.apply(statement),
            next_step(pending, table.answer(statement)),
        ),
    }
}

/// The handlers, run against a healthy table, serve every request as
/// [`served`] says.
pub proof fn lemma_run_is_served(table: TableView, request: RequestView)
    ensures
        run(table, first_step(request)) == served(table, request),
{
    reveal_with_fuel(run, 3);
    match request {
        RequestView::Update { id, patch } => {
            if table.has(id) {
                let current = table.row(id);
                let row = merged(current, patch);
                assert(current.id == id);
                assert(row == (TodoView { id, title: row.title, completed: row.completed }));
            }
        },
        _ => {},
    }
}

/// Serves one request from the table: runs the statements that the handlers
/// ask for, in turn, until they have the reply.
pub fn serve(table: &mut TodoTable, request: Request) -> (reply: Reply)
    requires
        old(table).wf(),
    ensures
        final(table).wf(),
        reply@ == served(old(table)@, request@).reply,
        final(table)@ == served(old(table)@, request@).table,
{
    proof {
        lemma_run_is_served(table@, request@);
    }
    let mut step = begin(request);
    loop
        invariant
            table.wf(),
            run(table@, step@) == served(old(table)@, request@),
        decreases step@.remaining(),
    {
        match step {
            Step::Finish(reply) => {
                return reply;
            },
            Step::Run(statement, pending) => {
                let outcome = table.execute(statement);
                step = resume(pending, outcome);
            },
        }
    }
}

} // verus!
