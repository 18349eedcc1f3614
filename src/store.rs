use crate::model::TodoRow;
use vstd::prelude::*;

verus! {

/// The `todos` table as a map from id to row.
pub type Table = Map<Seq<char>, TodoRow>;

/// What a select by id returns.
pub open spec fn select_by_id(t: Table, id: Seq<char>) -> Option<TodoRow> {
    if t.contains_key(id) {
        Some(t[id])
    } else {
        None
    }
}

/// What an existence check by id returns.
pub open spec fn exists_by_id(t: Table, id: Seq<char>) -> bool {
    t.contains_key(id)
}

/// What an existence check by title returns.
pub open spec fn exists_by_title(t: Table, title: Seq<char>) -> bool {
    exists|k: Seq<char>| #[trigger] t.contains_key(k) && t[k].title@ == title
}

/// The table after an insert, or after an update, which writes the whole
/// row under its id.
pub open spec fn write_row(t: Table, row: TodoRow) -> Table {
    t.insert(row.id@, row)
}

/// The table after a delete by id.
pub open spec fn delete_row(t: Table, id: Seq<char>) -> Table {
    t.remove(id)
}

} // verus!
