use std::collections::HashMap;

use todo_api::handler::{
    begin_create, create_after_insert, create_after_title_check, delete_after_check,
    delete_after_delete, edit_after_update, edit_lookup, edited_row, get_todo, health_check,
    list_todos, merge_update, row_for_create,
};
use todo_api::model::{QueryOptions, Todo, TodoRow, UpdateTodoSchema};
use todo_api::page::paginate;
use todo_api::response::{Body, HttpStatus, Reply};

fn payload(title: &str, content: &str) -> Todo {
    Todo {
        id: None,
        title: title.to_string(),
        content: content.to_string(),
        completed: None,
        createdAt: None,
        updatedAt: None,
    }
}

fn row(n: usize) -> TodoRow {
    TodoRow {
        id: format!("id-{:02}", n),
        title: format!("title {}", n),
        content: format!("content {}", n),
        completed: n % 2 == 0,
        created_at: 1_700_000_000_000 + n as i64,
        updated_at: 1_700_000_000_000 + n as i64,
    }
}

fn rows(n: usize) -> Vec<Option<TodoRow>> {
    (0..n).map(|i| Some(row(i))).collect()
}

fn opts(page: Option<usize>, limit: Option<usize>) -> QueryOptions {
    QueryOptions { page, limit }
}

fn message(r: &Reply) -> (String, String) {
    match &r.body {
        Body::Message(g) => (g.status.clone(), g.message.clone()),
        _ => panic!("not a message reply"),
    }
}

fn single(r: &Reply) -> Todo {
    match &r.body {
        Body::Single(s) => {
            assert_eq!(s.status, "success");
            s.data.todo.clone()
        }
        _ => panic!("not a single-todo reply"),
    }
}

fn list(r: &Reply) -> Vec<String> {
    match &r.body {
        Body::List(l) => {
            assert_eq!(l.status, "success");
            assert_eq!(l.results, l.todos.len());
            l.todos.iter().map(|t| t.id.clone().unwrap()).collect()
        }
        _ => panic!("not a list reply"),
    }
}

#[test]
fn health_check_replies_success() {
    let r = health_check();
    assert_eq!(r.status.code(), 200);
    assert_eq!(
        message(&r),
        ("success".to_string(), "Build Simple CRUD API with Rust, Actix Web, and Scylla".to_string())
    );
}

#[test]
fn status_codes() {
    assert_eq!(HttpStatus::Success.code(), 200);
    assert_eq!(HttpStatus::NoContent.code(), 204);
    assert_eq!(HttpStatus::NotFound.code(), 404);
    assert_eq!(HttpStatus::Conflict.code(), 409);
    assert_eq!(HttpStatus::InternalServerError.code(), 500);
}

#[test]
fn pages_of_twenty_five_are_disjoint() {
    let all = rows(25);
    let first = list(&list_todos(Ok(rows(25)), &opts(Some(1), Some(10))));
    let second = list(&list_todos(Ok(rows(25)), &opts(Some(2), Some(10))));
    let third = list(&list_todos(Ok(all), &opts(Some(3), Some(10))));
    assert_eq!(first.len(), 10);
    assert_eq!(second.len(), 10);
    assert_eq!(third.len(), 5);
    for id in &second {
        assert!(!first.contains(id));
        assert!(!third.contains(id));
    }
    assert_eq!(second[0], "id-10");
    assert_eq!(third[4], "id-24");
}

#[test]
fn list_defaults_to_first_ten() {
    let ids = list(&list_todos(Ok(rows(12)), &opts(None, None)));
    assert_eq!(ids, (0..10).map(|i| format!("id-{:02}", i)).collect::<Vec<_>>());
}

#[test]
fn list_skips_rows_that_did_not_decode() {
    let mut scanned = rows(4);
    scanned.insert(1, None);
    scanned.push(None);
    let ids = list(&list_todos(Ok(scanned), &opts(Some(1), Some(3))));
    assert_eq!(ids, vec!["id-00", "id-01", "id-02"]);
}

#[test]
fn list_past_the_end_and_zero_limit_are_empty() {
    assert!(list(&list_todos(Ok(rows(5)), &opts(Some(3), Some(10)))).is_empty());
    assert!(list(&list_todos(Ok(rows(5)), &opts(Some(1), Some(0)))).is_empty());
    assert!(list(&list_todos(Ok(Vec::new()), &opts(None, None))).is_empty());
}

#[test]
fn list_with_huge_page_is_empty() {
    let r = paginate(&rows(3), &opts(Some(usize::MAX), Some(usize::MAX)));
    assert!(r.is_empty());
}

#[test]
fn list_storage_error() {
    let r = list_todos(Err("timeout".to_string()), &opts(None, None));
    assert_eq!(r.status, HttpStatus::InternalServerError);
    assert_eq!(message(&r), ("error".to_string(), "Database error: timeout".to_string()));
}

#[test]
fn create_generates_id_and_equal_timestamps() {
    let a = begin_create(payload("Buy milk", "2%"));
    let b = begin_create(payload("Buy bread", "rye"));
    assert_eq!(a.id.len(), 36);
    assert_ne!(a.id, b.id);
    assert_eq!(a.title, "Buy milk");
    assert_eq!(a.content, "2%");
    assert!(!a.completed);
    assert_eq!(a.created_at, a.updated_at);
    assert!(a.created_at > 1_600_000_000_000);
}

#[test]
fn create_ignores_payload_id_and_flags() {
    let mut body = payload("t", "c");
    body.id = Some("given".to_string());
    body.completed = Some(true);
    body.createdAt = Some(5);
    let r = row_for_create(body, "fresh".to_string(), 42);
    assert_eq!(r.id, "fresh");
    assert!(!r.completed);
    assert_eq!((r.created_at, r.updated_at), (42, 42));
}

#[test]
fn create_title_check_outcomes() {
    assert!(create_after_title_check("Buy milk", Ok(false)).is_none());
    let r = create_after_title_check("Buy milk", Ok(true)).unwrap();
    assert_eq!(r.status.code(), 409);
    assert_eq!(
        message(&r),
        ("fail".to_string(), "Todo with title: 'Buy milk' already exists".to_string())
    );
    let r = create_after_title_check("Buy milk", Err("down".to_string())).unwrap();
    assert_eq!(r.status.code(), 500);
    assert_eq!(message(&r), ("error".to_string(), "Database error: down".to_string()));
}

#[test]
fn create_insert_outcomes() {
    let r = create_after_insert(row(1), Ok(()));
    assert_eq!(r.status, HttpStatus::Success);
    let t = single(&r);
    assert_eq!(t.id.as_deref(), Some("id-01"));
    assert_eq!(t.completed, Some(false));
    let r = create_after_insert(row(1), Err("no".to_string()));
    assert_eq!(message(&r), ("error".to_string(), "Failed to create todo: no".to_string()));
}

#[test]
fn get_outcomes() {
    let t = single(&get_todo("id-03", Ok(Some(row(3)))));
    assert_eq!(t.title, "title 3");
    assert_eq!(t.createdAt, Some(1_700_000_000_003));
    let r = get_todo("nope", Ok(None));
    assert_eq!(r.status.code(), 404);
    assert_eq!(message(&r), ("fail".to_string(), "Todo with ID: nope not found".to_string()));
    let r = get_todo("x", Err("e".to_string()));
    assert_eq!(r.status.code(), 500);
}

#[test]
fn edit_merges_given_fields_only() {
    let body = UpdateTodoSchema { title: None, content: Some("new".to_string()), completed: Some(true) };
    let r = merge_update("id-02".to_string(), row(2), body, 99);
    assert_eq!(r.title, "title 2");
    assert_eq!(r.content, "new");
    assert!(r.completed);
    assert_eq!(r.created_at, 1_700_000_000_002);
    assert_eq!(r.updated_at, 99);
}

#[test]
fn empty_edit_keeps_fields_and_moves_update_time() {
    let old = row(3);
    let body = UpdateTodoSchema { title: None, content: None, completed: None };
    let r = edited_row("id-03".to_string(), row(3), body);
    assert_eq!(r.title, old.title);
    assert_eq!(r.content, old.content);
    assert_eq!(r.completed, old.completed);
    assert_eq!(r.created_at, old.created_at);
    assert!(r.updated_at > old.updated_at);
}

#[test]
fn edit_lookup_and_update_outcomes() {
    assert_eq!(edit_lookup("id-01", Ok(Some(row(1)))).ok().unwrap().title, "title 1");
    let r = edit_lookup("gone", Ok(None)).err().unwrap();
    assert_eq!(message(&r), ("fail".to_string(), "Todo with ID: gone not found".to_string()));
    assert_eq!(edit_lookup("x", Err("e".to_string())).err().unwrap().status.code(), 500);
    let r = edit_after_update(row(1), Err("w".to_string()));
    assert_eq!(message(&r), ("error".to_string(), "Failed to update todo: w".to_string()));
}

#[test]
fn delete_outcomes() {
    assert!(delete_after_check("id-01", Ok(true)).is_none());
    let r = delete_after_check("gone", Ok(false)).unwrap();
    assert_eq!(r.status.code(), 404);
    assert_eq!(message(&r).1, "Todo with ID: gone not found");
    assert_eq!(delete_after_check("x", Err("e".to_string())).unwrap().status.code(), 500);
    let r = delete_after_delete(Ok(()));
    assert_eq!(r.status.code(), 204);
    assert!(matches!(r.body, Body::Empty));
    let r = delete_after_delete(Err("d".to_string()));
    assert_eq!(message(&r), ("error".to_string(), "Failed to delete todo: d".to_string()));
}

fn create(table: &mut HashMap<String, TodoRow>, title: &str, content: &str) -> Reply {
    let row = begin_create(payload(title, content));
    let taken = table.values().any(|r| r.title == title);
    if let Some(reply) = create_after_title_check(title, Ok(taken)) {
        return reply;
    }
    table.insert(row.id.clone(), row.clone());
    create_after_insert(row, Ok(()))
}

fn get(table: &HashMap<String, TodoRow>, id: &str) -> Reply {
    get_todo(id, Ok(table.get(id).cloned()))
}

fn edit(table: &mut HashMap<String, TodoRow>, id: &str, body: UpdateTodoSchema) -> Reply {
    let existing = match edit_lookup(id, Ok(table.get(id).cloned())) {
        Ok(row) => row,
        Err(reply) => return reply,
    };
    let row = edited_row(id.to_string(), existing, body);
    table.insert(row.id.clone(), row.clone());
    edit_after_update(row, Ok(()))
}

fn delete(table: &mut HashMap<String, TodoRow>, id: &str) -> Reply {
    if let Some(reply) = delete_after_check(id, Ok(table.contains_key(id))) {
        return reply;
    }
    table.remove(id);
    delete_after_delete(Ok(()))
}

#[test]
fn duplicate_title_conflicts_on_second_create() {
    let mut table = HashMap::new();
    assert_eq!(create(&mut table, "Same", "a").status.code(), 200);
    assert_eq!(create(&mut table, "Same", "b").status.code(), 409);
    assert_eq!(table.len(), 1);
}

#[test]
fn missing_ids_are_not_found() {
    let mut table = HashMap::new();
    let body = UpdateTodoSchema { title: None, content: None, completed: Some(true) };
    assert_eq!(edit(&mut table, "missing", body).status.code(), 404);
    assert_eq!(delete(&mut table, "missing").status.code(), 404);
}

#[test]
fn buy_milk_lifecycle() {
    let mut table = HashMap::new();
    let created = create(&mut table, "Buy milk", "2%");
    assert_eq!(created.status.code(), 200);
    let todo = single(&created);
    let id = todo.id.clone().unwrap();
    assert_eq!(todo.completed, Some(false));
    assert_eq!(todo.createdAt, todo.updatedAt);

    let fetched = single(&get(&table, &id));
    assert_eq!(fetched.id.as_deref(), Some(id.as_str()));
    assert_eq!(fetched.title, "Buy milk");
    assert_eq!(fetched.content, "2%");
    assert_eq!(fetched.completed, Some(false));
    assert_eq!(fetched.createdAt, todo.createdAt);
    assert_eq!(fetched.updatedAt, todo.updatedAt);

    let body = UpdateTodoSchema { title: None, content: None, completed: Some(true) };
    let edited = single(&edit(&mut table, &id, body));
    assert_eq!(edited.completed, Some(true));
    assert_eq!(edited.title, "Buy milk");
    assert_eq!(edited.content, "2%");
    assert_eq!(edited.createdAt, todo.createdAt);

    assert_eq!(delete(&mut table, &id).status.code(), 204);
    let r = get(&table, &id);
    assert_eq!(r.status.code(), 404);
    assert_eq!(message(&r).1, format!("Todo with ID: {} not found", id));
}
