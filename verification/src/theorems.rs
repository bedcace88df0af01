//! What holds of the service on every table and for every request.
//!
//! Most theorems are stated over [`served`], which
//! [`serve`](crate::service::serve) is proved to compute, so they hold of the
//! running service whenever the table behind it behaves as [`TableView`]
//! says. The last two speak of the handlers alone and hold whatever the table
//! answers.

use vstd::prelude::*;
use crate::handlers::{first_step, next_step, PendingView, RequestView, StepView};
use crate::reply::ReplyView;
use crate::service::{served, Served};
use crate::statement::{OutcomeView, StatementView};
use crate::table::TableView;
use crate::todo::{merged, TodoView, UpdateTodoView};

verus! {

/// The table after a sequence of requests, served one after another.
pub open spec fn table_after(table: TableView, requests: Seq<RequestView>) -> TableView
    decreases requests.len(),
{
    if requests.len() == 0 {
        table
    } else {
        served(table_after(table, requests.drop_last()), requests.last()).table
    }
}

/// The reply to the request at position `at` of a sequence of requests,
/// served one after another.
pub open spec fn reply_at(table: TableView, requests: Seq<RequestView>, at: int) -> ReplyView {
    served(table_after(table, requests.take(at)), requests[at]).reply
}

/// One create request for each title, in order.
pub open spec fn creates(titles: Seq<Seq<char>>) -> Seq<RequestView> {
    Seq::new(titles.len(), |i: int| RequestView::Create { title: titles[i] })
}

/// Serving a request keeps the table well-formed and never lowers the mark
/// of the largest key given out.
pub proof fn theorem_served_keeps_table(table: TableView, request: RequestView)
    requires
        table.wf(),
    ensures
        served(table, request).table.wf(),
        served(table, request).table.last_id >= table.last_id,
{
    match request {
        RequestView::Create { title } => {
            table.lemma_apply_keeps_wf(StatementView::Insert { title });
        },
        RequestView::Update { id, patch } => {
            let row = merged(table.row(id), patch);
            table.lemma_apply_keeps_wf(
                StatementView::Update {
                    id,
                    title: row.title,
                    completed: row.completed,
                },
            );
        },
        RequestView::Delete { id } => {
            table.lemma_apply_keeps_wf(StatementView::DeleteById { id });
        },
        _ => {},
    }
}

/// The same over a whole sequence of requests.
pub proof fn theorem_requests_keep_table(table: TableView, requests: Seq<RequestView>)
    requires
        table.wf(),
    ensures
        table_after(table, requests).wf(),
        table_after(table, requests).last_id >= table.last_id,
    decreases requests.len(),
{
    if requests.len() > 0 {
        theorem_requests_keep_table(table, requests.drop_last());
        theorem_served_keeps_table(table_after(table, requests.drop_last()), requests.last());
    }
}

/// Serving one sequence of requests and then another is serving the two
/// joined.
pub proof fn lemma_table_after_splits(
    table: TableView,
    first: Seq<RequestView>,
    second: Seq<RequestView>,
)
    ensures
        table_after(table, first + second) == table_after(table_after(table, first), second),
    decreases second.len(),
{
    if second.len() == 0 {
        assert(first + second =~= first);
    } else {
        lemma_table_after_splits(table, first, second.drop_last());
        assert((first + second).drop_last() =~= first + second.drop_last());
        assert((first + second).last() == second.last());
    }
}

/// A create request succeeds whatever the title is, the empty title too: as
/// long as a key is left, the title is stored as given.
pub proof fn theorem_create_takes_every_title(table: TableView, title: Seq<char>)
    requires
        table.has_room(),
    ensures
        served(table, RequestView::Create { title }).reply == ReplyView::Todo(
            TodoView { id: table.last_id + 1, title, completed: false },
        ),
{
}

/// A create request that succeeds is answered with a key that no row has and
/// that no earlier insert was given, and the row stands in the table
/// afterwards exactly as returned.
pub proof fn theorem_created_key_is_new(table: TableView, title: Seq<char>)
    requires
        table.wf(),
        served(table, RequestView::Create { title }).reply is Todo,
    ensures
        ({
            let made = served(table, RequestView::Create { title });
            let row = made.reply->Todo_0;
            &&& row.id > table.last_id
            &&& !table.has(row.id)
            &&& made.table.has(row.id)
            &&& made.table.row(row.id) == row
        }),
{
    let row = table.next_row(title);
    let after = served(table, RequestView::Create { title }).table;
    theorem_served_keeps_table(table, RequestView::Create { title });
    assert(after.rows[table.rows.len() as int] == row);
    after.lemma_slot_is_unique(row.id, table.rows.len() as int);
}

/// Of two create requests in one sequence of requests, whatever stands
/// between them, the later one is answered with the larger key: no two
/// created items share a key, deleted ones included.
pub proof fn theorem_created_keys_rise(
    table: TableView,
    requests: Seq<RequestView>,
    earlier: int,
    later: int,
)
    requires
        table.wf(),
        0 <= earlier < later < requests.len(),
        requests[earlier] is Create,
        requests[later] is Create,
        reply_at(table, requests, earlier) is Todo,
        reply_at(table, requests, later) is Todo,
    ensures
        reply_at(table, requests, earlier)->Todo_0.id < reply_at(table, requests, later)->Todo_0.id,
{
    let before_earlier = table_after(table, requests.take(earlier));
    let after_earlier = table_after(table, requests.take(earlier + 1));
    let before_later = table_after(table, requests.take(later));
    theorem_requests_keep_table(table, requests.take(earlier));
    assert(requests.take(earlier + 1).drop_last() =~= requests.take(earlier));
    assert(requests.take(earlier + 1).last() == requests[earlier]);
    assert(after_earlier == served(before_earlier, requests[earlier]).table);
    theorem_served_keeps_table(before_earlier, requests[earlier]);
    // What lies between the two requests runs on the table the earlier one left.
    let between = requests.subrange(earlier + 1, later);
    lemma_table_after_splits(table, requests.take(earlier + 1), between);
    assert(requests.take(earlier + 1) + between =~= requests.take(later));
    theorem_requests_keep_table(after_earlier, between);
    assert(before_later.last_id >= after_earlier.last_id);
}

/// Fetching an item by the key that its creation returned gives the record
/// that the creation returned, and changes nothing.
pub proof fn theorem_get_after_create(table: TableView, title: Seq<char>)
    requires
        table.wf(),
        served(table, RequestView::Create { title }).reply is Todo,
    ensures
        ({
            let made = served(table, RequestView::Create { title });
            served(made.table, RequestView::Get { id: made.reply->Todo_0.id }) == (
            Served { reply: made.reply, table: made.table })
        }),
{
    theorem_created_key_is_new(table, title);
}

/// A listing holds every row of the table once, and the keys fall from each
/// entry to the next.
pub proof fn theorem_listing_is_newest_first(table: TableView)
    requires
        table.wf(),
    ensures
        table.listing().len() == table.rows.len(),
        forall|i: int, j: int|
            0 <= i < j < table.listing().len() ==> (#[trigger] table.listing()[i]).id > (
            #[trigger] table.listing()[j]).id,
        forall|id: int| #[trigger]
            table.has(id) ==> {
                let at = table.rows.len() - 1 - table.slot(id);
                0 <= at < table.listing().len() && table.listing()[at] == table.row(id)
            },
{
    let listing = table.listing();
    let n = table.rows.len() as int;
    assert forall|i: int, j: int| 0 <= i < j < listing.len() implies (#[trigger] listing[i]).id > (
    #[trigger] listing[j]).id by {
        assert(table.rows[n - 1 - j].id < table.rows[n - 1 - i].id);
    }
}

/// The table after one create request for each title: the new rows follow
/// the earlier ones, under consecutive keys, in the order of the requests.
pub proof fn lemma_table_after_creates(table: TableView, titles: Seq<Seq<char>>)
    requires
        table.wf(),
        table.last_id + titles.len() <= i64::MAX,
    ensures
        table_after(table, creates(titles)) == (TableView {
            rows: table.rows + Seq::new(
                titles.len(),
                |i: int| TodoView { id: table.last_id + 1 + i, title: titles[i], completed: false },
            ),
            last_id: table.last_id + titles.len(),
        }),
    decreases titles.len(),
{
    let added = Seq::new(
        titles.len(),
        |i: int| TodoView { id: table.last_id + 1 + i, title: titles[i], completed: false },
    );
    if titles.len() == 0 {
        assert(table.rows + added =~= table.rows);
    } else {
        let fewer = titles.drop_last();
        lemma_table_after_creates(table, fewer);
        assert(creates(titles).drop_last() =~= creates(fewer));
        assert(creates(titles).last() == RequestView::Create { title: titles.last() });
        let before = table_after(table, creates(fewer));
        let added_before = Seq::new(
            fewer.len(),
            |i: int| TodoView { id: table.last_id + 1 + i, title: fewer[i], completed: false },
        );
        assert(before.rows == table.rows + added_before);
        assert(before.rows.push(before.next_row(titles.last())) =~= table.rows + added);
    }
}

/// Creating N items in an empty table and listing them: the create request
/// at position `at` returns the item under the key `at + 1`, and the listing
/// is those N items from the last created to the first, each of them once
/// and as its creation returned it.
pub proof fn theorem_list_after_creates(titles: Seq<Seq<char>>)
    requires
        titles.len() <= i64::MAX,
    ensures
        forall|at: int|
            0 <= at < titles.len() ==> #[trigger] reply_at(TableView::empty(), creates(titles), at)
                == ReplyView::Todo(TodoView { id: at + 1, title: titles[at], completed: false }),
        served(table_after(TableView::empty(), creates(titles)), RequestView::List).reply
            == ReplyView::Todos(
            Seq::new(
                titles.len(),
                |k: int|
                    TodoView {
                        id: titles.len() - k,
                        title: titles[titles.len() - 1 - k],
                        completed: false,
                    },
            ),
        ),
{
    let empty = TableView::empty();
    let n = titles.len() as int;
    assert forall|at: int| 0 <= at < n implies #[trigger] reply_at(empty, creates(titles), at)
        == ReplyView::Todo(TodoView { id: at + 1, title: titles[at], completed: false }) by {
        lemma_table_after_creates(empty, titles.take(at));
        assert(creates(titles).take(at) =~= creates(titles.take(at)));
    }
    lemma_table_after_creates(empty, titles);
    let listing = Seq::new(
        titles.len(),
        |k: int| TodoView { id: n - k, title: titles[n - 1 - k], completed: false },
    );
    assert(table_after(empty, creates(titles)).listing() =~= listing);
}

/// An update returns and stores the row with each supplied field replaced
/// and each field left out as it was: with only `completed` supplied the
/// title stays, with only `title` supplied the flag stays.
pub proof fn theorem_update_keeps_what_is_left_out(table: TableView, id: int, patch: UpdateTodoView)
    requires
        table.wf(),
        table.has(id),
    ensures
        served(table, RequestView::Update { id, patch }).reply is Todo,
        ({
            let before = table.row(id);
            let answer = served(table, RequestView::Update { id, patch });
            let row = answer.reply->Todo_0;
            &&& row.id == id
            &&& row.title == match patch.title {
                Some(title) => title,
                None => before.title,
            }
            &&& row.completed == match patch.completed {
                Some(completed) => completed,
                None => before.completed,
            }
            &&& answer.table.has(id)
            &&& answer.table.row(id) == row
        }),
{
    let answer = served(table, RequestView::Update { id, patch });
    let at = table.slot(id);
    theorem_served_keeps_table(table, RequestView::Update { id, patch });
    assert(answer.table.rows[at].id == id);
    answer.table.lemma_slot_is_unique(id, at);
}

/// Of two writes to one row the later one stands, whatever the earlier one
/// wrote: an update that read before another update wrote still overwrites
/// the row with what it merged from its own reading.
pub proof fn theorem_last_write_wins(
    table: TableView,
    id: int,
    earlier_title: Seq<char>,
    earlier_completed: bool,
    later_title: Seq<char>,
    later_completed: bool,
)
    requires
        table.wf(),
    ensures
        table.overwritten(id, earlier_title, earlier_completed).overwritten(
            id,
            later_title,
            later_completed,
        ) == table.overwritten(id, later_title, later_completed),
{
    let once = table.overwritten(id, earlier_title, earlier_completed);
    if table.has(id) {
        let at = table.slot(id);
        let last = TodoView { id, title: later_title, completed: later_completed };
        table.lemma_apply_keeps_wf(
            StatementView::Update { id, title: earlier_title, completed: earlier_completed },
        );
        assert(once.rows[at].id == id);
        once.lemma_slot_is_unique(id, at);
        assert(once.rows.update(at, last) =~= table.rows.update(at, last));
    } else {
        assert(!once.has(id));
    }
}

/// A request for a key that no row has is answered with not-found, and so is
/// an update of it; neither changes the table.
pub proof fn theorem_missing_key_is_not_found(table: TableView, id: int, patch: UpdateTodoView)
    requires
        !table.has(id),
    ensures
        served(table, RequestView::Get { id }) == (Served {
            reply: ReplyView::NotFound,
            table,
        }),
        served(table, RequestView::Update { id, patch }) == (Served {
            reply: ReplyView::NotFound,
            table,
        }),
{
}

/// Deleting a key that no row has succeeds and leaves the table as it was.
pub proof fn theorem_delete_of_missing_key_changes_nothing(table: TableView, id: int)
    requires
        !table.has(id),
    ensures
        served(table, RequestView::Delete { id }) == (Served {
            reply: ReplyView::Empty,
            table,
        }),
{
}

/// Deleting a key that a row has succeeds, and afterwards no row has it;
/// every other row stays.
pub proof fn theorem_delete_removes_the_row(table: TableView, id: int, other: int)
    requires
        table.wf(),
        table.has(id),
        other != id,
    ensures
        served(table, RequestView::Delete { id }).reply == ReplyView::Empty,
        !served(table, RequestView::Delete { id }).table.has(id),
        served(table, RequestView::Delete { id }).table.has(other) == table.has(other),
        table.has(other) ==> served(table, RequestView::Delete { id }).table.row(other)
            == table.row(other),
{
    let after = served(table, RequestView::Delete { id }).table;
    let at = table.slot(id);
    theorem_served_keeps_table(table, RequestView::Delete { id });
    assert forall|i: int| 0 <= i < after.rows.len() implies (#[trigger] after.rows[i]).id != id by {
        let from = if i < at { i } else { i + 1 };
        assert(after.rows[i] == table.rows[from]);
        if from < at {
            assert(table.rows[from].id < table.rows[at].id);
        } else {
            assert(table.rows[at].id < table.rows[from].id);
        }
    }
    if table.has(other) {
        let from = table.slot(other);
        let to = if from < at { from } else { from - 1 };
        assert(after.rows[to] == table.rows[from]);
        after.lemma_slot_is_unique(other, to);
    }
    if after.has(other) {
        let to = after.slot(other);
        let from = if to < at { to } else { to + 1 };
        assert(after.rows[to] == table.rows[from]);
        assert(table.rows[from].id == other);
    }
}

/// Whatever the table answers, a request is over after two statements at
/// most, and only an update asks for the second.
pub proof fn theorem_two_statements_at_most(
    request: RequestView,
    first: OutcomeView,
    second: OutcomeView,
)
    ensures
        first_step(request) is Run,
        next_step(first_step(request)->Run_1, first) is Run ==> {
            &&& request is Update
            &&& next_step(next_step(first_step(request)->Run_1, first)->Run_1, second) is Finish
        },
{
}

/// A statement that the table could not run ends the request with a server
/// error, whichever statement of whichever request it was.
pub proof fn theorem_failed_statement_is_a_server_error(pending: PendingView)
    ensures
        next_step(pending, OutcomeView::Failed) == StepView::Finish(ReplyView::ServerError),
        ReplyView::ServerError.status() == 500,
{
}

} // verus!
