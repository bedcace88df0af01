//! The to-do record and the two request payloads that carry its fields.

use vstd::prelude::*;

verus! {

/// A stored to-do item.
#[derive(Debug, PartialEq, Eq)]
pub struct Todo {
    /// The key the table assigned when the item was created.
    pub id: i64,
    pub title: String,
    pub completed: bool,
}

/// The mathematical value of a [`Todo`].
pub struct TodoView {
    pub id: int,
    pub title: Seq<char>,
    pub completed: bool,
}

impl View for Todo {
    type V = TodoView;

    open spec fn view(&self) -> TodoView {
        TodoView { id: self.id as int, title: self.title@, completed: self.completed }
    }
}

impl DeepView for Todo {
    type V = TodoView;

    open spec fn deep_view(&self) -> TodoView {
        self@
    }
}

impl Clone for Todo {
    /// A copy that is equal to the record in every field.
    fn clone(&self) -> (copy: Self)
        ensures
            copy == *self,
    {
        Todo { id: self.id, title: self.title.clone(), completed: self.completed }
    }
}

/// The payload of a create request. Any title is accepted, the empty one too.
#[derive(Debug, Clone, PartialEq, Eq)]
pub struct CreateTodo {
    pub title: String,
}

impl View for CreateTodo {
    type V = Seq<char>;

    open spec fn view(&self) -> Seq<char> {
        self.title@
    }
}

/// The payload of an update request: each field is either supplied or left out.
#[derive(Debug, Clone, PartialEq, Eq)]
pub struct UpdateTodo {
    pub title: Option<String>,
    pub completed: Option<bool>,
}

/// The mathematical value of an [`UpdateTodo`].
pub struct UpdateTodoView {
    pub title: Option<Seq<char>>,
    pub completed: Option<bool>,
}

impl View for UpdateTodo {
    type V = UpdateTodoView;

    open spec fn view(&self) -> UpdateTodoView {
        UpdateTodoView {
            title: match self.title {
                Some(title) => Some(title@),
                None => None,
            },
            completed: self.completed,
        }
    }
}

/// The record that results from laying `patch` over `current`: a supplied
/// field replaces the current one, a field left out keeps it, and the key
/// never changes.
pub open spec fn merged(current: TodoView, patch: UpdateTodoView) -> TodoView {
    TodoView {
        id: current.id,
        title: match patch.title {
            Some(title) => title,
            None => current.title,
        },
        completed: match patch.completed {
            Some(completed) => completed,
            None => current.completed,
        },
    }
}

impl UpdateTodo {
    /// Lays this payload over the record `current`.
    pub fn apply(self, current: Todo) -> (updated: Todo)
        ensures
            updated@ == merged(current@, self@),
    {
        let title = self.title.unwrap_or(current.title);
        let completed = self.completed.unwrap_or(current.completed);
        Todo { id: current.id, title, completed }
    }
}

} // verus!
