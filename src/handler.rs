use crate::model::{todo_of, QueryOptions, Todo, TodoRow, UpdateTodoSchema};
use crate::page::{listed, page_number, paginate};
use crate::response::{
    message_reply, no_content, not_found, not_found_message, conflict_message, reply_envelope_status,
    reply_message, reply_todo, reply_todos, list_counts_match, storage_error, success_list,
    success_todo, title_conflict, HttpStatus, Reply,
};
use vstd::prelude::*;
use vstd::string::*;

verus! {

/// Relies on uuid's `Uuid::new_v4` and its `Display`: a random version-4
/// UUID in hyphenated lower-case form, which is 36 characters long.
#[verifier::external_body]
fn new_todo_id() -> (r: String)
    ensures
        r@.len() == 36,
{
    uuid::Uuid::new_v4().to_string()
}

/// Relies on chrono's `Utc::now` and `DateTime::timestamp_millis`: the
/// current time as milliseconds since the Unix epoch. Nothing is known of
/// the value.
#[verifier::external_body]
fn now_millis() -> (r: i64) {
    chrono::Utc::now().timestamp_millis()
}

/// The status a reply that may be absent would carry.
pub open spec fn status_of(r: Option<Reply>) -> Option<HttpStatus> {
    match r {
        Some(x) => Some(x.status),
        None => None,
    }
}

/// The reply of the health check.
pub fn health_check() -> (r: Reply)
    ensures
        r.status == HttpStatus::Success,
        reply_envelope_status(r) == Some("success"@),
        reply_message(r) == Some("Build Simple CRUD API with Rust, Actix Web, and Scylla"@),
{
    message_reply(
        HttpStatus::Success,
        "success",
        String::from_str("Build Simple CRUD API with Rust, Actix Web, and Scylla"),
    )
}

/// The reply of a list request, given the outcome of the full scan: the
/// requested page of the rows that decoded, or the store's error.
pub fn list_todos(fetched: Result<Vec<Option<TodoRow>>, String>, opts: &QueryOptions) -> (r: Reply)
    requires
        page_number(*opts) >= 1,
    ensures
        list_counts_match(r),
        match fetched {
            Ok(rows) => r.status == HttpStatus::Success
                && reply_todos(r) == Some(listed(rows@, *opts))
                && reply_envelope_status(r) == Some("success"@),
            Err(e) => r.status == HttpStatus::InternalServerError
                && reply_message(r) == Some("Database error: "@ + e@)
                && reply_envelope_status(r) == Some("error"@),
        },
{
    match fetched {
        Ok(rows) => success_list(paginate(&rows, opts)),
        Err(e) => storage_error("Database error: ", e.as_str()),
    }
}

/// The status and todo that a lookup by id leads to.
pub open spec fn lookup_outcome(fetched: Result<Option<TodoRow>, String>) -> (HttpStatus, Option<Todo>) {
    match fetched {
        Ok(Some(row)) => (HttpStatus::Success, Some(todo_of(row))),
        Ok(None) => (HttpStatus::NotFound, None),
        Err(_) => (HttpStatus::InternalServerError, None),
    }
}

/// The reply of a get request, given the outcome of the select by id
/// (`Ok(None)` where no row came back or it did not decode).
pub fn get_todo(id: &str, fetched: Result<Option<TodoRow>, String>) -> (r: Reply)
    ensures
        (r.status, reply_todo(r)) == lookup_outcome(fetched),
        match fetched {
            Ok(Some(_)) => reply_envelope_status(r) == Some("success"@),
            Ok(None) => reply_message(r) == Some(not_found_message(id@))
                && reply_envelope_status(r) == Some("fail"@),
            Err(e) => reply_message(r) == Some("Database error: "@ + e@)
                && reply_envelope_status(r) == Some("error"@),
        },
{
    match fetched {
        Ok(Some(row)) => success_todo(row.into_todo()),
        Ok(None) => not_found(id),
        Err(e) => storage_error("Database error: ", e.as_str()),
    }
}

/// The row that a create request inserts, given the new id and the time.
pub open spec fn create_row(body: Todo, id: String, now: i64) -> TodoRow {
    TodoRow {
        id,
        title: body.title,
        content: body.content,
        completed: false,
        created_at: now,
        updated_at: now,
    }
}

/// Builds the row to insert from the payload, the id and the time. The
/// payload's id, completion flag and timestamps are ignored.
pub fn row_for_create(body: Todo, id: String, now: i64) -> (r: TodoRow)
    ensures
        r == create_row(body, id, now),
{
    TodoRow { id, title: body.title, content: body.content, completed: false, created_at: now, updated_at: now }
}

/// Starts a create request: a freshly generated id, the current time as
/// both timestamps, not completed.
pub fn begin_create(body: Todo) -> (r: TodoRow)
    ensures
        r.title == body.title,
        r.content == body.content,
        !r.completed,
        r.created_at == r.updated_at,
        r.id@.len() == 36,
{
    let id = new_todo_id();
    let now = now_millis();
    row_for_create(body, id, now)
}

/// What the uniqueness check of a create request leads to: `None` to go on
/// with the insert, else the status of the reply.
pub open spec fn title_check_outcome(check: Result<bool, String>) -> Option<HttpStatus> {
    match check {
        Ok(false) => None,
        Ok(true) => Some(HttpStatus::Conflict),
        Err(_) => Some(HttpStatus::InternalServerError),
    }
}

/// Decides on the outcome of the uniqueness check (`Ok(true)` where a todo
/// with `title` exists): `None` to go on with the insert, or the reply.
pub fn create_after_title_check(title: &str, check: Result<bool, String>) -> (r: Option<Reply>)
    ensures
        status_of(r) == title_check_outcome(check),
        match check {
            Ok(true) => reply_message(r->0) == Some(conflict_message(title@))
                && reply_envelope_status(r->0) == Some("fail"@),
            Err(e) => reply_message(r->0) == Some("Database error: "@ + e@)
                && reply_envelope_status(r->0) == Some("error"@),
            Ok(false) => true,
        },
{
    match check {
        Ok(false) => None,
        Ok(true) => Some(title_conflict(title)),
        Err(e) => Some(storage_error("Database error: ", e.as_str())),
    }
}

/// The status that a write's outcome leads to.
pub open spec fn write_outcome(written: Result<(), String>, done: HttpStatus) -> HttpStatus {
    match written {
        Ok(_) => done,
        Err(_) => HttpStatus::InternalServerError,
    }
}

/// The reply of a create request once the insert of `row` has run.
pub fn create_after_insert(row: TodoRow, inserted: Result<(), String>) -> (r: Reply)
    ensures
        r.status == write_outcome(inserted, HttpStatus::Success),
        match inserted {
            Ok(_) => reply_todo(r) == Some(todo_of(row))
                && reply_envelope_status(r) == Some("success"@),
            Err(e) => reply_message(r) == Some("Failed to create todo: "@ + e@)
                && reply_envelope_status(r) == Some("error"@),
        },
{
    match inserted {
        Ok(_) => success_todo(row.into_todo()),
        Err(e) => storage_error("Failed to create todo: ", e.as_str()),
    }
}

/// Decides on the select that starts an edit: the stored row, or the reply
/// that ends the request.
pub fn edit_lookup(id: &str, fetched: Result<Option<TodoRow>, String>) -> (r: Result<TodoRow, Reply>)
    ensures
        match r {
            Ok(row) => lookup_outcome(fetched) == (HttpStatus::Success, Some(todo_of(row))),
            Err(x) => x.status == lookup_outcome(fetched).0,
        },
        match fetched {
            Ok(Some(row)) => r == Ok::<TodoRow, Reply>(row),
            Ok(None) => r is Err && r->Err_0.status == HttpStatus::NotFound
                && reply_message(r->Err_0) == Some(not_found_message(id@))
                && reply_envelope_status(r->Err_0) == Some("fail"@),
            Err(e) => r is Err && r->Err_0.status == HttpStatus::InternalServerError
                && reply_message(r->Err_0) == Some("Database error: "@ + e@)
                && reply_envelope_status(r->Err_0) == Some("error"@),
        },
{
    match fetched {
        Ok(Some(row)) => Ok(row),
        Ok(None) => Err(not_found(id)),
        Err(e) => Err(storage_error("Database error: ", e.as_str())),
    }
}

/// The row an edit writes: each given field replaces the stored one, the
/// others are kept, and `now` becomes the update time.
pub open spec fn merged_row(id: String, existing: TodoRow, body: UpdateTodoSchema, now: i64) -> TodoRow {
    TodoRow {
        id,
        title: match body.title {
            Some(t) => t,
            None => existing.title,
        },
        content: match body.content {
            Some(c) => c,
            None => existing.content,
        },
        completed: match body.completed {
            Some(c) => c,
            None => existing.completed,
        },
        created_at: existing.created_at,
        updated_at: now,
    }
}

/// Merges a partial update into the stored row.
pub fn merge_update(id: String, existing: TodoRow, body: UpdateTodoSchema, now: i64) -> (r: TodoRow)
    ensures
        r == merged_row(id, existing, body, now),
{
    let title = match body.title {
        Some(t) => t,
        None => existing.title,
    };
    let content = match body.content {
        Some(c) => c,
        None => existing.content,
    };
    let completed = match body.completed {
        Some(c) => c,
        None => existing.completed,
    };
    TodoRow { id, title, content, completed, created_at: existing.created_at, updated_at: now }
}

/// The row an edit writes, stamped with the current time.
pub fn edited_row(id: String, existing: TodoRow, body: UpdateTodoSchema) -> (r: TodoRow)
    ensures
        exists|now: i64| r == merged_row(id, existing, body, now),
{
    let now = now_millis();
    merge_update(id, existing, body, now)
}

/// The reply of an edit once the update of `row` has run.
pub fn edit_after_update(row: TodoRow, updated: Result<(), String>) -> (r: Reply)
    ensures
        r.status == write_outcome(updated, HttpStatus::Success),
        match updated {
            Ok(_) => reply_todo(r) == Some(todo_of(row))
                && reply_envelope_status(r) == Some("success"@),
            Err(e) => reply_message(r) == Some("Failed to update todo: "@ + e@)
                && reply_envelope_status(r) == Some("error"@),
        },
{
    match updated {
        Ok(_) => success_todo(row.into_todo()),
        Err(e) => storage_error("Failed to update todo: ", e.as_str()),
    }
}

/// What the existence check of a delete request leads to: `None` to go on
/// with the delete, else the status of the reply.
pub open spec fn exists_check_outcome(check: Result<bool, String>) -> Option<HttpStatus> {
    match check {
        Ok(true) => None,
        Ok(false) => Some(HttpStatus::NotFound),
        Err(_) => Some(HttpStatus::InternalServerError),
    }
}

/// Decides on the existence check of a delete request (`Ok(true)` where a
/// row with `id` exists): `None` to go on with the delete, or the reply.
pub fn delete_after_check(id: &str, check: Result<bool, String>) -> (r: Option<Reply>)
    ensures
        status_of(r) == exists_check_outcome(check),
        match check {
            Ok(false) => reply_message(r->0) == Some(not_found_message(id@))
                && reply_envelope_status(r->0) == Some("fail"@),
            Err(e) => reply_message(r->0) == Some("Database error: "@ + e@)
                && reply_envelope_status(r->0) == Some("error"@),
            Ok(true) => true,
        },
{
    match check {
        Ok(true) => None,
        Ok(false) => Some(not_found(id)),
        Err(e) => Some(storage_error("Database error: ", e.as_str())),
    }
}

/// The reply of a delete request once the delete has run.
pub fn delete_after_delete(deleted: Result<(), String>) -> (r: Reply)
    ensures
        r.status == write_outcome(deleted, HttpStatus::NoContent),
        match deleted {
            Ok(_) => r.body is Empty,
            Err(e) => reply_message(r) == Some("Failed to delete todo: "@ + e@)
                && reply_envelope_status(r) == Some("error"@),
        },
{
    match deleted {
        Ok(_) => no_content(),
        Err(e) => storage_error("Failed to delete todo: ", e.as_str()),
    }
}

} // verus!
