//! The to-do entity and the shapes in which it crosses the HTTP boundary.

use vstd::prelude::*;

verus! {

/// An instant, counted in microseconds since the Unix epoch (UTC).
///
/// The store assigns it; this crate only carries it.
#[derive(Clone, Copy, Debug, PartialEq, Eq, Structural)]
pub struct Timestamp {
    pub micros: i64,
}

/// The mathematical content of a to-do item, shared by [`Todo`] and
/// [`TodoResponse`].
pub struct TodoView {
    pub id: i32,
    pub name: Seq<char>,
    pub created_at: Timestamp,
    pub checked: bool,
}

impl TodoView {
    /// Whether this is an item as the data model has it: its name is not
    /// empty.
    pub open spec fn valid(self) -> bool {
        self.name.len() > 0
    }
}

/// A persisted to-do item. The store assigns `id` and `created_at`.
#[derive(Debug)]
pub struct Todo {
    pub id: i32,
    pub name: String,
    pub created_at: Timestamp,
    pub checked: bool,
}

impl View for Todo {
    type V = TodoView;

    open spec fn view(&self) -> TodoView {
        TodoView {
            id: self.id,
            name: self.name@,
            created_at: self.created_at,
            checked: self.checked,
        }
    }
}

/// The body of a creation request: only the name is the client's to choose.
#[derive(Debug)]
pub struct TodoRequest {
    pub name: String,
}

impl TodoRequest {
    /// Whether the request has the expected shape: the name is not empty.
    pub open spec fn valid(&self) -> bool {
        self.name@.len() > 0
    }

    /// Whether the request has the expected shape.
    pub fn is_valid(&self) -> (valid: bool)
        ensures
            valid == self.valid(),
    {
        !self.name.as_str().is_empty()
    }
}

/// The body of an update request: the two mutable fields, both replaced.
#[derive(Debug)]
pub struct TodoUpdateRequest {
    pub name: String,
    pub checked: bool,
}

impl TodoUpdateRequest {
    /// Whether the request has the expected shape: the name is not empty.
    pub open spec fn valid(&self) -> bool {
        self.name@.len() > 0
    }

    /// Whether the request has the expected shape.
    pub fn is_valid(&self) -> (valid: bool)
        ensures
            valid == self.valid(),
    {
        !self.name.as_str().is_empty()
    }
}

/// What a client sees of a to-do item: every field, unchanged.
#[derive(Debug)]
pub struct TodoResponse {
    pub id: i32,
    pub name: String,
    pub created_at: Timestamp,
    pub checked: bool,
}

impl View for TodoResponse {
    type V = TodoView;

    open spec fn view(&self) -> TodoView {
        TodoView {
            id: self.id,
            name: self.name@,
            created_at: self.created_at,
            checked: self.checked,
        }
    }
}

impl TodoResponse {
    /// Projects a stored item to its client-facing form, field for field.
    pub fn of(todo: Todo) -> (response: TodoResponse)
        ensures
            response@ == todo@,
    {
        TodoResponse {
            id: todo.id,
            name: todo.name,
            created_at: todo.created_at,
            checked: todo.checked,
        }
    }
}

/// The views of a sequence of items, in the same order.
pub open spec fn todo_views(todos: Seq<Todo>) -> Seq<TodoView> {
    Seq::new(todos.len(), |i: int| todos[i]@)
}

/// The views of a sequence of responses, in the same order.
pub open spec fn response_views(responses: Seq<TodoResponse>) -> Seq<TodoView> {
    Seq::new(responses.len(), |i: int| responses[i]@)
}

} // verus!
