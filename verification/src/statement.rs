//! What the service asks of its table, and what the table can answer.
//!
//! A [`Statement`] names one of the five things the service ever does to the
//! table, with the values it binds and the SQL text it stands for; an
//! [`Outcome`] is the answer in plain values. Between the two lies the
//! database, which this crate never calls.

use vstd::prelude::*;
use crate::todo::{Todo, TodoView};

verus! {

/// One statement put to the table.
#[derive(Debug, Clone, PartialEq, Eq)]
pub enum Statement {
    /// Read every row, newest key first.
    SelectAll,
    /// Add a row with this title, not completed, under a key the table picks.
    Insert { title: String },
    /// Read the row with this key.
    SelectById { id: i64 },
    /// Overwrite title and completion flag of the row with this key and read
    /// the row back.
    Update { id: i64, title: String, completed: bool },
    /// Remove the row with this key, if there is one.
    DeleteById { id: i64 },
}

/// The mathematical value of a [`Statement`].
pub enum StatementView {
    SelectAll,
    Insert { title: Seq<char> },
    SelectById { id: int },
    Update { id: int, title: Seq<char>, completed: bool },
    DeleteById { id: int },
}

impl View for Statement {
    type V = StatementView;

    open spec fn view(&self) -> StatementView {
        match *self {
            Statement::SelectAll => StatementView::SelectAll,
            Statement::Insert { title } => StatementView::Insert { title: title@ },
            Statement::SelectById { id } => StatementView::SelectById { id: id as int },
            Statement::Update { id, title, completed } => StatementView::Update {
                id: id as int,
                title: title@,
                completed,
            },
            Statement::DeleteById { id } => StatementView::DeleteById { id: id as int },
        }
    }
}

impl StatementView {
    /// The SQL text of a statement. Each `?` stands for a value of the
    /// statement, bound in the order in which the text names the columns.
    pub open spec fn sql(self) -> Seq<char> {
        match self {
            StatementView::SelectAll => "SELECT * FROM todos ORDER BY id DESC"@,
            StatementView::Insert { .. } =>
                "INSERT INTO todos (title, completed) VALUES (?, 0) RETURNING *"@,
            StatementView::SelectById { .. } => "SELECT * FROM todos WHERE id = ?"@,
            StatementView::Update { .. } =>
                "UPDATE todos SET title = ?, completed = ? WHERE id = ? RETURNING *"@,
            StatementView::DeleteById { .. } => "DELETE FROM todos WHERE id = ?"@,
        }
    }
}

/// The SQL text that sets the table up. It can be run at every start: where
/// the table is there already, nothing changes.
pub const CREATE_TABLE: &'static str = "CREATE TABLE IF NOT EXISTS todos (\
    id INTEGER PRIMARY KEY AUTOINCREMENT, \
    title TEXT NOT NULL, \
    completed BOOLEAN NOT NULL DEFAULT 0\
    );";

impl Statement {
    /// The SQL text to run for this statement.
    pub fn sql(&self) -> (text: &'static str)
        ensures
            text@ == self@.sql(),
    {
        match self {
            Statement::SelectAll => "SELECT * FROM todos ORDER BY id DESC",
            Statement::Insert { .. } =>
                "INSERT INTO todos (title, completed) VALUES (?, 0) RETURNING *",
            Statement::SelectById { .. } => "SELECT * FROM todos WHERE id = ?",
            Statement::Update { .. } =>
                "UPDATE todos SET title = ?, completed = ? WHERE id = ? RETURNING *",
            Statement::DeleteById { .. } => "DELETE FROM todos WHERE id = ?",
        }
    }
}

/// What came back from the table for one statement.
#[derive(Debug, Clone, PartialEq, Eq)]
pub enum Outcome {
    /// The rows a statement returned, in the order the table gave them.
    Rows(Vec<Todo>),
    /// The single row a statement returned.
    Row(Todo),
    /// The statement ran and matched no row.
    NoRow,
    /// The statement ran and returns nothing.
    Done,
    /// The table could not run the statement.
    Failed,
}

/// The mathematical value of an [`Outcome`].
pub enum OutcomeView {
    Rows(Seq<TodoView>),
    Row(TodoView),
    NoRow,
    Done,
    Failed,
}

impl View for Outcome {
    type V = OutcomeView;

    open spec fn view(&self) -> OutcomeView {
        match *self {
            Outcome::Rows(rows) => OutcomeView::Rows(rows.deep_view()),
            Outcome::Row(row) => OutcomeView::Row(row@),
            Outcome::NoRow => OutcomeView::NoRow,
            Outcome::Done => OutcomeView::Done,
            Outcome::Failed => OutcomeView::Failed,
        }
    }
}

} // verus!
