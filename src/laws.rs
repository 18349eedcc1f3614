use crate::handler::{
    create_row, exists_check_outcome, lookup_outcome, merged_row, title_check_outcome, write_outcome,
};
use crate::model::{todo_of, QueryOptions, Todo, TodoRow, UpdateTodoSchema};
use crate::page::{decoded, listed, page_limit, page_number, page_offset};
use crate::response::HttpStatus;
use crate::store::{delete_row, exists_by_id, exists_by_title, select_by_id, write_row, Table};
use vstd::prelude::*;

verus! {

/// Two creates with the same title, one after the other: on a table without
/// that title the first passes its check and its insert succeeds; the
/// second's check then finds the title and the request ends in a conflict.
pub proof fn law_duplicate_title_conflicts(t: Table, first: TodoRow, second_title: Seq<char>)
    requires
        !exists_by_title(t, first.title@),
        second_title == first.title@,
    ensures
        title_check_outcome(Ok::<bool, String>(exists_by_title(t, first.title@))) == None::<HttpStatus>,
        write_outcome(Ok::<(), String>(()), HttpStatus::Success) == HttpStatus::Success,
        title_check_outcome(Ok::<bool, String>(exists_by_title(write_row(t, first), second_title)))
            == Some(HttpStatus::Conflict),
{
    let t2 = write_row(t, first);
    assert(t2.contains_key(first.id@) && t2[first.id@].title@ == second_title);
}

/// A created todo read back by its id: the get finds the row that the
/// create inserted and returns the same todo that the create returned, with
/// the payload's title and content, not completed, and equal timestamps.
pub proof fn law_create_then_get(t: Table, body: Todo, id: String, now: i64)
    ensures
        lookup_outcome(Ok::<Option<TodoRow>, String>(select_by_id(write_row(t, create_row(body, id, now)), id@)))
            == (HttpStatus::Success, Some(todo_of(create_row(body, id, now)))),
        todo_of(create_row(body, id, now)).id == Some(id),
        todo_of(create_row(body, id, now)).title == body.title,
        todo_of(create_row(body, id, now)).content == body.content,
        todo_of(create_row(body, id, now)).completed == Some(false),
        todo_of(create_row(body, id, now)).createdAt == todo_of(create_row(body, id, now)).updatedAt,
{
}

/// An edit with no field given keeps title, content and completion and the
/// creation time, and moves the update time to the time of the edit: later
/// than before whenever the clock has moved on.
pub proof fn law_empty_edit(id: String, existing: TodoRow, now: i64)
    requires
        now > existing.updated_at,
    ensures
        merged_row(id, existing, UpdateTodoSchema { title: None, content: None, completed: None }, now).title
            == existing.title,
        merged_row(id, existing, UpdateTodoSchema { title: None, content: None, completed: None }, now).content
            == existing.content,
        merged_row(id, existing, UpdateTodoSchema { title: None, content: None, completed: None }, now).completed
            == existing.completed,
        merged_row(id, existing, UpdateTodoSchema { title: None, content: None, completed: None }, now).created_at
            == existing.created_at,
        merged_row(id, existing, UpdateTodoSchema { title: None, content: None, completed: None }, now).updated_at
            > existing.updated_at,
{
}

/// An id that names no row: get and edit, whose first step is the same
/// lookup, end in not-found, and so does a delete's existence check.
pub proof fn law_missing_id(t: Table, id: Seq<char>)
    requires
        !t.contains_key(id),
    ensures
        lookup_outcome(Ok::<Option<TodoRow>, String>(select_by_id(t, id))).0 == HttpStatus::NotFound,
        exists_check_outcome(Ok::<bool, String>(exists_by_id(t, id))) == Some(HttpStatus::NotFound),
{
}

/// Deleting a stored id goes through with "no content", and a get of the
/// same id afterwards ends in not-found.
pub proof fn law_delete_then_get(t: Table, id: Seq<char>)
    requires
        t.contains_key(id),
    ensures
        exists_check_outcome(Ok::<bool, String>(exists_by_id(t, id))) == None::<HttpStatus>,
        write_outcome(Ok::<(), String>(()), HttpStatus::NoContent) == HttpStatus::NoContent,
        lookup_outcome(Ok::<Option<TodoRow>, String>(select_by_id(delete_row(t, id), id))).0
            == HttpStatus::NotFound,
{
}

/// Two different pages of the same size, over the same scan of distinct
/// todos, share no todo; each page holds `limit` todos, or fewer only where
/// the scan runs out.
pub proof fn law_pages_disjoint(rows: Seq<Option<TodoRow>>, a: QueryOptions, b: QueryOptions)
    requires
        decoded(rows).no_duplicates(),
        page_number(a) >= 1,
        page_number(b) >= 1,
        page_number(a) != page_number(b),
        page_limit(a) == page_limit(b),
    ensures
        forall|x: Todo| listed(rows, a).contains(x) ==> !listed(rows, b).contains(x),
        listed(rows, a).len() == if page_offset(a) >= decoded(rows).len() {
            0
        } else if page_offset(a) + page_limit(a) <= decoded(rows).len() {
            page_limit(a)
        } else {
            decoded(rows).len() - page_offset(a)
        },
{
    let s = decoded(rows);
    let l = page_limit(a);
    let pa = page_number(a);
    let pb = page_number(b);
    let oa = page_offset(a);
    let ob = page_offset(b);
    assert(oa >= 0 && ob >= 0 && (oa + l <= ob || ob + l <= oa)) by (nonlinear_arith)
        requires
            oa == (pa - 1) * l,
            ob == (pb - 1) * l,
            pa >= 1,
            pb >= 1,
            pa != pb,
            l >= 0,
    ;
    assert forall|x: Todo| listed(rows, a).contains(x) implies !listed(rows, b).contains(x) by {
        let ga = listed(rows, a);
        let gb = listed(rows, b);
        let i = choose|i: int| 0 <= i < ga.len() && ga[i] == x;
        if gb.contains(x) {
            let j = choose|j: int| 0 <= j < gb.len() && gb[j] == x;
            assert(s[oa + i] == x);
            assert(s[ob + j] == x);
        }
    }
}

} // verus!
