//! The table of to-do items: what each statement means on it, and an
//! in-memory table that behaves so.
//!
//! [`TableView`] is the table as a mathematical value: the rows in rising
//! key order and the largest key ever given out. Its functions say what a
//! healthy table answers to each [`Statement`] and how the statement changes
//! it. [`TodoTable`] holds the same in a `Vec` and is proved to do exactly
//! that, so a request can be served without a database behind it.

use vstd::prelude::*;
use crate::statement::{Outcome, OutcomeView, Statement, StatementView};
use crate::todo::{Todo, TodoView};

verus! {

/// The table as a mathematical value.
pub struct TableView {
    /// The rows, by rising key.
    pub rows: Seq<TodoView>,
    /// The largest key ever assigned, 0 before the first insert. Keys of
    /// deleted rows stay counted, so no key is given out twice.
    pub last_id: int,
}

impl TableView {
    /// The table before the first insert.
    pub open spec fn empty() -> TableView {
        TableView { rows: Seq::empty(), last_id: 0 }
    }

    /// Every key was assigned by an insert (from 1 up to `last_id`), and the
    /// rows stand in strictly rising key order, so no key occurs twice.
    pub open spec fn wf(self) -> bool {
        &&& 0 <= self.last_id <= i64::MAX
        &&& forall|i: int|
            0 <= i < self.rows.len() ==> 1 <= (#[trigger] self.rows[i]).id <= self.last_id
        &&& forall|i: int, j: int|
            0 <= i < j < self.rows.len() ==> (#[trigger] self.rows[i]).id < (
            #[trigger] self.rows[j]).id
    }

    /// Whether a row has the key `id`.
    pub open spec fn has(self, id: int) -> bool {
        exists|i: int| 0 <= i < self.rows.len() && (#[trigger] self.rows[i]).id == id
    }

    /// The position of the row with the key `id`, where there is one.
    pub open spec fn slot(self, id: int) -> int {
        choose|i: int| 0 <= i < self.rows.len() && (#[trigger] self.rows[i]).id == id
    }

    /// The row with the key `id`, where there is one.
    pub open spec fn row(self, id: int) -> TodoView {
        self.rows[self.slot(id)]
    }

    /// All rows by falling key: the newest first.
    pub open spec fn listing(self) -> Seq<TodoView> {
        self.rows.reverse()
    }

    /// Whether a key is left for one more row.
    pub open spec fn has_room(self) -> bool {
        self.last_id < i64::MAX
    }

    /// The row that an insert of `title` adds: under the next key, not
    /// completed.
    pub open spec fn next_row(self, title: Seq<char>) -> TodoView {
        TodoView { id: self.last_id + 1, title, completed: false }
    }

    /// The table after an insert of `title`. Without a key left nothing is
    /// added.
    pub open spec fn inserted(self, title: Seq<char>) -> TableView {
        if self.has_room() {
            TableView { rows: self.rows.push(self.next_row(title)), last_id: self.last_id + 1 }
        } else {
            self
        }
    }

    /// The table after title and flag of the row with the key `id` were
    /// overwritten. Without such a row nothing changes.
    pub open spec fn overwritten(self, id: int, title: Seq<char>, completed: bool) -> TableView {
        if self.has(id) {
            TableView {
                rows: self.rows.update(self.slot(id), TodoView { id, title, completed }),
                last_id: self.last_id,
            }
        } else {
            self
        }
    }

    /// The table after the row with the key `id` was removed. Without such a
    /// row nothing changes.
    pub open spec fn without(self, id: int) -> TableView {
        if self.has(id) {
            TableView { rows: self.rows.remove(self.slot(id)), last_id: self.last_id }
        } else {
            self
        }
    }

    /// What the table answers to a statement.
    pub open spec fn answer(self, statement: StatementView) -> OutcomeView {
        match statement {
            StatementView::SelectAll => OutcomeView::Rows(self.listing()),
            StatementView::Insert { title } => if self.has_room() {
                OutcomeView::Row(self.next_row(title))
            } else {
                OutcomeView::Failed
            },
            StatementView::SelectById { id } => if self.has(id) {
                OutcomeView::Row(self.row(id))
            } else {
                OutcomeView::NoRow
            },
            StatementView::Update { id, title, completed } => if self.has(id) {
                OutcomeView::Row(TodoView { id, title, completed })
            } else {
                OutcomeView::NoRow
            },
            StatementView::DeleteById { id } => OutcomeView::Done,
        }
    }

    /// The table after a statement.
    pub open spec fn apply(self, statement: StatementView) -> TableView {
        match statement {
            StatementView::SelectAll => self,
            StatementView::Insert { title } => self.inserted(title),
            StatementView::SelectById { id } => self,
            StatementView::Update { id, title, completed } => self.overwritten(id, title, completed),
            StatementView::DeleteById { id } => self.without(id),
        }
    }

    /// In a well-formed table a key stands at one position only.
    pub proof fn lemma_slot_is_unique(self, id: int, i: int)
        requires
            self.wf(),
            0 <= i < self.rows.len(),
            self.rows[i].id == id,
        ensures
            self.has(id),
            self.slot(id) == i,
            self.row(id) == self.rows[i],
    {
        let j = self.slot(id);
        if j < i {
            assert(self.rows[j].id < self.rows[i].id);
        } else if i < j {
            assert(self.rows[i].id < self.rows[j].id);
        }
    }

    /// Every statement leaves a well-formed table well-formed, and never
    /// takes a key back.
    pub proof fn lemma_apply_keeps_wf(self, statement: StatementView)
        requires
            self.wf(),
        ensures
            self.apply(statement).wf(),
            self.apply(statement).last_id >= self.last_id,
    {
        let after = self.apply(statement);
        match statement {
            StatementView::Insert { title } => {
                if self.has_room() {
                    assert forall|i: int, j: int| 0 <= i < j < after.rows.len() implies (
                    #[trigger] after.rows[i]).id < (#[trigger] after.rows[j]).id by {
                        if j < self.rows.len() {
                            assert(self.rows[i].id < self.rows[j].id);
                        } else {
                            assert(self.rows[i].id <= self.last_id);
                        }
                    }
                }
            },
            StatementView::Update { id, title, completed } => {
                if self.has(id) {
                    assert forall|i: int, j: int| 0 <= i < j < after.rows.len() implies (
                    #[trigger] after.rows[i]).id < (#[trigger] after.rows[j]).id by {
                        assert(self.rows[i].id < self.rows[j].id);
                    }
                    assert forall|i: int| 0 <= i < after.rows.len() implies 1 <= (
                    #[trigger] after.rows[i]).id <= after.last_id by {
                        assert(1 <= self.rows[i].id <= self.last_id);
                    }
                }
            },
            StatementView::DeleteById { id } => {
                if self.has(id) {
                    let at = self.slot(id);
                    assert forall|i: int, j: int| 0 <= i < j < after.rows.len() implies (
                    #[trigger] after.rows[i]).id < (#[trigger] after.rows[j]).id by {
                        let from_i = if i < at { i } else { i + 1 };
                        let from_j = if j < at { j } else { j + 1 };
                        assert(after.rows[i] == self.rows[from_i]);
                        assert(after.rows[j] == self.rows[from_j]);
                        assert(self.rows[from_i].id < self.rows[from_j].id);
                    }
                    assert forall|i: int| 0 <= i < after.rows.len() implies 1 <= (
                    #[trigger] after.rows[i]).id <= after.last_id by {
                        let from_i = if i < at { i } else { i + 1 };
                        assert(after.rows[i] == self.rows[from_i]);
                    }
                }
            },
            _ => {},
        }
    }
}

/// A table of to-do items held in memory.
pub struct TodoTable {
    rows: Vec<Todo>,
    last_id: i64,
}

impl View for TodoTable {
    type V = TableView;

    closed spec fn view(&self) -> TableView {
        TableView { rows: self.rows.deep_view(), last_id: self.last_id as int }
    }
}

impl TodoTable {
    /// The invariant of the table: that of its value.
    pub open spec fn wf(&self) -> bool {
        self@.wf()
    }

    /// A table with no rows, where no key has been assigned yet.
    pub fn new() -> (table: Self)
        ensures
            table.wf(),
            table@ == TableView::empty(),
    {
        let table = TodoTable { rows: Vec::new(), last_id: 0 };
        assert(table@.rows =~= Seq::empty());
        table
    }

    /// The position of the row with the key `id`, if there is one.
    fn position(&self, id: i64) -> (found: Option<usize>)
        requires
            self.wf(),
        ensures
            match found {
                Some(at) => {
                    &&& at < self.rows.len()
                    &&& self@.has(id as int)
                    &&& at == self@.slot(id as int)
                },
                None => !self@.has(id as int),
            },
    {
        let mut at: usize = 0;
        while at < self.rows.len()
            invariant
                self.wf(),
                at <= self.rows.len(),
                forall|k: int| 0 <= k < at ==> (#[trigger] self@.rows[k]).id != id,
            decreases self.rows.len() - at,
        {
            if self.rows[at].id == id {
                proof {
                    assert(self@.rows[at as int].id == id);
                    self@.lemma_slot_is_unique(id as int, at as int);
                }
                return Some(at);
            }
            at = at + 1;
        }
        None
    }

    /// All rows, newest first.
    pub fn select_all(&self) -> (rows: Vec<Todo>)
        ensures
            rows.deep_view() == self@.listing(),
    {
        let mut rows: Vec<Todo> = Vec::new();
        let mut left: usize = self.rows.len();
        while left > 0
            invariant
                left <= self.rows.len(),
                rows.len() == self.rows.len() - left,
                forall|k: int| 0 <= k < rows.len() ==> rows[k] == self.rows[self.rows.len() - 1 - k],
            decreases left,
        {
            left = left - 1;
            rows.push(self.rows[left].clone());
        }
        assert(rows.deep_view() =~= self@.listing());
        rows
    }

    /// Adds a row with this title, not completed, under the next key, and
    /// returns it. `None`, and no change, where the keys are used up.
    pub fn insert(&mut self, title: String) -> (row: Option<Todo>)
        requires
            old(self).wf(),
        ensures
            final(self).wf(),
            final(self)@ == old(self)@.inserted(title@),
            match row {
                Some(row) => old(self)@.has_room() && row@ == old(self)@.next_row(title@),
                None => !old(self)@.has_room(),
            },
    {
        if self.last_id == i64::MAX {
            return None;
        }
        let id = self.last_id + 1;
        let row = Todo { id, title, completed: false };
        self.rows.push(row.clone());
        self.last_id = id;
        proof {
            assert(self@.rows =~= old(self)@.rows.push(row@));
            old(self)@.lemma_apply_keeps_wf(StatementView::Insert { title: title@ });
        }
        Some(row)
    }

    /// The row with the key `id`, if there is one.
    pub fn select_by_id(&self, id: i64) -> (row: Option<Todo>)
        requires
            self.wf(),
        ensures
            match row {
                Some(row) => self@.has(id as int) && row@ == self@.row(id as int),
                None => !self@.has(id as int),
            },
    {
        match self.position(id) {
            Some(at) => Some(self.rows[at].clone()),
            None => None,
        }
    }

    /// Overwrites title and flag of the row with the key `id` and returns the
    /// row as it now stands. `None`, and no change, where no row has the key.
    pub fn update(&mut self, id: i64, title: String, completed: bool) -> (row: Option<Todo>)
        requires
            old(self).wf(),
        ensures
            final(self).wf(),
            final(self)@ == old(self)@.overwritten(id as int, title@, completed),
            match row {
                Some(row) => old(self)@.has(id as int) && row@ == (TodoView {
                    id: id as int,
                    title: title@,
                    completed,
                }),
                None => !old(self)@.has(id as int),
            },
    {
        match self.position(id) {
            Some(at) => {
                let row = Todo { id, title, completed };
                self.rows[at] = row.clone();
                proof {
                    assert(self@.rows =~= old(self)@.rows.update(at as int, row@));
                    old(self)@.lemma_apply_keeps_wf(
                        StatementView::Update { id: id as int, title: title@, completed },
                    );
                }
                Some(row)
            },
            None => None,
        }
    }

    /// Removes the row with the key `id`. Where no row has the key, nothing
    /// changes.
    pub fn delete_by_id(&mut self, id: i64)
        requires
            old(self).wf(),
        ensures
            final(self).wf(),
            final(self)@ == old(self)@.without(id as int),
    {
        match self.position(id) {
            Some(at) => {
                let _ = self.rows.remove(at);
                proof {
                    assert(self@.rows =~= old(self)@.rows.remove(at as int));
                    old(self)@.lemma_apply_keeps_wf(StatementView::DeleteById { id: id as int });
                }
            },
            None => {},
        }
    }

    /// Runs one statement on the table and answers as a healthy table does.
    pub fn execute(&mut self, statement: Statement) -> (outcome: Outcome)
        requires
            old(self).wf(),
        ensures
            final(self).wf(),
            final(self)@ == old(self)@.apply(statement@),
            outcome@ == old(self)@.answer(statement@),
    {
        match statement {
            Statement::SelectAll => Outcome::Rows(self.select_all()),
            Statement::Insert { title } => match self.insert(title) {
                Some(row) => Outcome::Row(row),
                None => Outcome::Failed,
            },
            Statement::SelectById { id } => match self.select_by_id(id) {
                Some(row) => Outcome::Row(row),
                None => Outcome::NoRow,
            },
            Statement::Update { id, title, completed } => match self.update(id, title, completed) {
                Some(row) => Outcome::Row(row),
                None => Outcome::NoRow,
            },
            Statement::DeleteById { id } => {
                self.delete_by_id(id);
                Outcome::Done
            },
        }
    }
}

} // verus!
