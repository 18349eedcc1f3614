use crate::model::{todo_of, QueryOptions, Todo, TodoRow};
use vstd::prelude::*;

verus! {

/// The todos that a scan's rows decode to, in scan order; rows that did not
/// decode (`None`) are left out.
pub open spec fn decoded(rows: Seq<Option<TodoRow>>) -> Seq<Todo>
    decreases rows.len(),
{
    if rows.len() == 0 {
        Seq::empty()
    } else {
        let prev = decoded(rows.drop_last());
        match rows.last() {
            Some(row) => prev.push(todo_of(row)),
            None => prev,
        }
    }
}

/// The requested page number, 1 when absent.
pub open spec fn page_number(opts: QueryOptions) -> int {
    match opts.page {
        Some(p) => p as int,
        None => 1,
    }
}

/// The requested page size, 10 when absent.
pub open spec fn page_limit(opts: QueryOptions) -> int {
    match opts.limit {
        Some(l) => l as int,
        None => 10,
    }
}

/// How many items come before the requested page.
pub open spec fn page_offset(opts: QueryOptions) -> int {
    (page_number(opts) - 1) * page_limit(opts)
}

/// The items of `s` from position `offset` on, at most `limit` of them.
pub open spec fn page_of<A>(s: Seq<A>, offset: int, limit: int) -> Seq<A> {
    let lo = if offset < s.len() { offset } else { s.len() as int };
    let hi = if offset + limit < s.len() { offset + limit } else { s.len() as int };
    s.subrange(lo, hi)
}

/// The page that a list request with `opts` returns from the scanned rows.
pub open spec fn listed(rows: Seq<Option<TodoRow>>, opts: QueryOptions) -> Seq<Todo> {
    page_of(decoded(rows), page_offset(opts), page_limit(opts))
}

/// Appending one item extends a page only where the item's position falls
/// inside it.
pub proof fn lemma_page_push<A>(s: Seq<A>, x: A, offset: int, limit: int)
    requires
        offset >= 0,
        limit >= 0,
    ensures
        page_of(s.push(x), offset, limit) == if offset <= s.len() && s.len() < offset + limit {
            page_of(s, offset, limit).push(x)
        } else {
            page_of(s, offset, limit)
        },
{
    if offset <= s.len() && s.len() < offset + limit {
        assert(page_of(s.push(x), offset, limit) =~= page_of(s, offset, limit).push(x));
    } else {
        assert(page_of(s.push(x), offset, limit) =~= page_of(s, offset, limit));
    }
}

/// Decodes the scanned rows, skipping those that did not decode, and keeps
/// the requested page.
pub fn paginate(rows: &Vec<Option<TodoRow>>, opts: &QueryOptions) -> (r: Vec<Todo>)
    requires
        page_number(*opts) >= 1,
    ensures
        r@ == listed(rows@, *opts),
{
    let limit: usize = match opts.limit {
        Some(l) => l,
        None => 10,
    };
    let page: usize = match opts.page {
        Some(p) => p,
        None => 1,
    };
    let ghost off = page_offset(*opts);
    assert(off >= 0) by (nonlinear_arith)
        requires
            off == (page - 1) * limit,
            page >= 1,
    ;
    let offset: usize = match (page - 1).checked_mul(limit) {
        Some(o) => o,
        None => usize::MAX,
    };
    let mut out: Vec<Todo> = Vec::new();
    let mut seen: usize = 0;
    let mut i: usize = 0;
    while i < rows.len()
        invariant
            i <= rows.len(),
            off >= 0,
            off == page_offset(*opts),
            limit as int == page_limit(*opts),
            off <= usize::MAX ==> offset as int == off,
            off > usize::MAX ==> offset == usize::MAX,
            seen as int == decoded(rows@.take(i as int)).len(),
            seen <= i,
            out@ == page_of(decoded(rows@.take(i as int)), off, limit as int),
        decreases rows.len() - i,
    {
        let ghost before = decoded(rows@.take(i as int));
        assert(rows@.take(i + 1).drop_last() =~= rows@.take(i as int));
        match &rows[i] {
            Some(row) => {
                proof {
                    lemma_page_push(before, todo_of(*row), off, limit as int);
                }
                if seen >= offset && seen - offset < limit {
                    out.push(row.to_todo());
                }
                seen = seen + 1;
            },
            None => {},
        }
        i = i + 1;
    }
    assert(rows@.take(rows@.len() as int) =~= rows@);
    out
}

} // verus!
