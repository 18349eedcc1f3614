use crate::model::Todo;
use vstd::prelude::*;
use vstd::string::*;

verus! {

/// `{status, message}`: the envelope of every message-only reply.
pub struct GenericResponse {
    pub status: String,
    pub message: String,
}

/// `{todo}`: the payload of a single-todo reply.
pub struct TodoData {
    pub todo: Todo,
}

/// `{status, data: {todo}}`.
pub struct SingleTodoResponse {
    pub status: String,
    pub data: TodoData,
}

/// `{status, results, todos}`: `results` counts the todos returned.
pub struct TodoListResponse {
    pub status: String,
    pub results: usize,
    pub todos: Vec<Todo>,
}

/// The HTTP status of a reply.
#[derive(PartialEq, Eq, Structural, Clone, Copy, Debug)]
pub enum HttpStatus {
    Success,
    NoContent,
    NotFound,
    Conflict,
    InternalServerError,
}

impl HttpStatus {
    pub open spec fn spec_code(self) -> u16 {
        match self {
            HttpStatus::Success => 200,
            HttpStatus::NoContent => 204,
            HttpStatus::NotFound => 404,
            HttpStatus::Conflict => 409,
            HttpStatus::InternalServerError => 500,
        }
    }

    /// The numeric status code.
    pub fn code(&self) -> (r: u16)
        ensures
            r == self.spec_code(),
    {
        match self {
            HttpStatus::Success => 200,
            HttpStatus::NoContent => 204,
            HttpStatus::NotFound => 404,
            HttpStatus::Conflict => 409,
            HttpStatus::InternalServerError => 500,
        }
    }
}

/// The body of a reply; `Empty` goes with "no content".
pub enum Body {
    Message(GenericResponse),
    Single(SingleTodoResponse),
    List(TodoListResponse),
    Empty,
}

/// A complete reply: status and body.
pub struct Reply {
    pub status: HttpStatus,
    pub body: Body,
}

/// The todo carried by a single-todo reply.
pub open spec fn reply_todo(r: Reply) -> Option<Todo> {
    match r.body {
        Body::Single(s) => Some(s.data.todo),
        _ => None,
    }
}

/// The todos carried by a list reply.
pub open spec fn reply_todos(r: Reply) -> Option<Seq<Todo>> {
    match r.body {
        Body::List(l) => Some(l.todos@),
        _ => None,
    }
}

/// The message of a message-only reply.
pub open spec fn reply_message(r: Reply) -> Option<Seq<char>> {
    match r.body {
        Body::Message(g) => Some(g.message@),
        _ => None,
    }
}

/// The envelope's `status` field, where the body has one.
pub open spec fn reply_envelope_status(r: Reply) -> Option<Seq<char>> {
    match r.body {
        Body::Message(g) => Some(g.status@),
        Body::Single(s) => Some(s.status@),
        Body::List(l) => Some(l.status@),
        Body::Empty => None,
    }
}

/// A list reply is well formed when `results` counts its todos.
pub open spec fn list_counts_match(r: Reply) -> bool {
    match r.body {
        Body::List(l) => l.results == l.todos@.len(),
        _ => true,
    }
}

pub open spec fn not_found_message(id: Seq<char>) -> Seq<char> {
    "Todo with ID: "@ + id + " not found"@
}

pub open spec fn conflict_message(title: Seq<char>) -> Seq<char> {
    "Todo with title: '"@ + title + "' already exists"@
}

/// Builds a 200 reply carrying one todo.
pub fn success_todo(todo: Todo) -> (r: Reply)
    ensures
        r.status == HttpStatus::Success,
        reply_todo(r) == Some(todo),
        reply_envelope_status(r) == Some("success"@),
{
    Reply {
        status: HttpStatus::Success,
        body: Body::Single(SingleTodoResponse { status: String::from_str("success"), data: TodoData { todo } }),
    }
}

/// Builds a 200 reply carrying a list of todos.
pub fn success_list(todos: Vec<Todo>) -> (r: Reply)
    ensures
        r.status == HttpStatus::Success,
        reply_todos(r) == Some(todos@),
        reply_envelope_status(r) == Some("success"@),
        list_counts_match(r),
{
    let results = todos.len();
    Reply {
        status: HttpStatus::Success,
        body: Body::List(TodoListResponse { status: String::from_str("success"), results, todos }),
    }
}

/// Builds a message-only reply.
pub fn message_reply(status: HttpStatus, envelope: &str, message: String) -> (r: Reply)
    ensures
        r.status == status,
        reply_message(r) == Some(message@),
        reply_envelope_status(r) == Some(envelope@),
{
    Reply {
        status,
        body: Body::Message(GenericResponse { status: String::from_str(envelope), message }),
    }
}

/// The 404 reply for an id that names no todo.
pub fn not_found(id: &str) -> (r: Reply)
    ensures
        r.status == HttpStatus::NotFound,
        reply_message(r) == Some(not_found_message(id@)),
        reply_envelope_status(r) == Some("fail"@),
{
    let mut m = String::from_str("Todo with ID: ");
    m.append(id);
    m.append(" not found");
    message_reply(HttpStatus::NotFound, "fail", m)
}

/// The 409 reply for a title that is already taken.
pub fn title_conflict(title: &str) -> (r: Reply)
    ensures
        r.status == HttpStatus::Conflict,
        reply_message(r) == Some(conflict_message(title@)),
        reply_envelope_status(r) == Some("fail"@),
{
    let mut m = String::from_str("Todo with title: '");
    m.append(title);
    m.append("' already exists");
    message_reply(HttpStatus::Conflict, "fail", m)
}

/// The 500 reply for a storage failure: `prefix` followed by the store's text.
pub fn storage_error(prefix: &str, err: &str) -> (r: Reply)
    ensures
        r.status == HttpStatus::InternalServerError,
        reply_message(r) == Some(prefix@ + err@),
        reply_envelope_status(r) == Some("error"@),
{
    let mut m = String::from_str(prefix);
    m.append(err);
    message_reply(HttpStatus::InternalServerError, "error", m)
}

/// The 204 reply with an empty body.
pub fn no_content() -> (r: Reply)
    ensures
        r.status == HttpStatus::NoContent,
        r.body is Empty,
{
    Reply { status: HttpStatus::NoContent, body: Body::Empty }
}

} // verus!
