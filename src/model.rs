use std::sync::Arc;
use vstd::prelude::*;

verus! {

/// The store's session handle, shared by all requests.
#[verifier::external_type_specification]
#[verifier::external_body]
pub struct ExSession(scylla::Session);

/// A todo item as it travels on the wire. Timestamps are milliseconds
/// since the Unix epoch, in UTC.
#[allow(non_snake_case)]
#[derive(Clone, Debug)]
pub struct Todo {
    pub id: Option<String>,
    pub title: String,
    pub content: String,
    pub completed: Option<bool>,
    pub createdAt: Option<i64>,
    pub updatedAt: Option<i64>,
}

/// One decoded row of the `todos` table: the six columns, all present.
#[derive(Clone, Debug)]
pub struct TodoRow {
    pub id: String,
    pub title: String,
    pub content: String,
    pub completed: bool,
    pub created_at: i64,
    pub updated_at: i64,
}

/// Shared state handed to every handler.
pub struct AppState {
    pub db: Arc<scylla::Session>,
}

impl AppState {
    pub fn new(session: scylla::Session) -> (r: AppState)
        ensures
            *r.db == session,
    {
        AppState { db: Arc::new(session) }
    }
}

/// Pagination options of the list request. `page` is 1-based.
#[derive(Debug)]
pub struct QueryOptions {
    pub page: Option<usize>,
    pub limit: Option<usize>,
}

/// A partial update: a field that is `None` keeps its stored value.
#[derive(Debug)]
pub struct UpdateTodoSchema {
    pub title: Option<String>,
    pub content: Option<String>,
    pub completed: Option<bool>,
}

/// The entity that a stored row stands for.
pub open spec fn todo_of(row: TodoRow) -> Todo {
    Todo {
        id: Some(row.id),
        title: row.title,
        content: row.content,
        completed: Some(row.completed),
        createdAt: Some(row.created_at),
        updatedAt: Some(row.updated_at),
    }
}

impl TodoRow {
    /// The entity this row stands for, built from copies of its columns.
    pub fn to_todo(&self) -> (r: Todo)
        ensures
            r == todo_of(*self),
    {
        Todo {
            id: Some(self.id.clone()),
            title: self.title.clone(),
            content: self.content.clone(),
            completed: Some(self.completed),
            createdAt: Some(self.created_at),
            updatedAt: Some(self.updated_at),
        }
    }

    /// The entity this row stands for, taking the row's columns.
    pub fn into_todo(self) -> (r: Todo)
        ensures
            r == todo_of(self),
    {
        Todo {
            id: Some(self.id),
            title: self.title,
            content: self.content,
            completed: Some(self.completed),
            createdAt: Some(self.created_at),
            updatedAt: Some(self.updated_at),
        }
    }
}

} // verus!
