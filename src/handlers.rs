use vstd::prelude::*;

use crate::text::{contains_str, has_substring, lower_of, lowercase, parse_status, status_of};
use crate::types::{ApiError, Search, Todo, UpdateTodo};

verus! {

/// The item at position `id`, if there is one.
pub open spec fn lookup(s: Seq<Todo>, id: int) -> Option<Todo> {
    if 0 <= id < s.len() {
        Some(s[id])
    } else {
        None
    }
}

/// The list after `t` is appended.
pub open spec fn created(s: Seq<Todo>, t: Todo) -> Seq<Todo> {
    s.push(t)
}

/// The item `t` with the title and description of `p`, its status kept.
pub open spec fn patched(t: Todo, p: UpdateTodo) -> Todo {
    Todo { title: p.title, description: p.description, complete: t.complete }
}

/// The item `t` with its status flipped.
pub open spec fn flipped(t: Todo) -> Todo {
    Todo { complete: !t.complete, ..t }
}

/// The list after item `id` is patched; unchanged where `id` names no item.
pub open spec fn updated(s: Seq<Todo>, id: int, p: UpdateTodo) -> Seq<Todo> {
    if 0 <= id < s.len() {
        s.update(id, patched(s[id], p))
    } else {
        s
    }
}

/// The list after item `id` has its status flipped; unchanged where `id`
/// names no item.
pub open spec fn toggled(s: Seq<Todo>, id: int) -> Seq<Todo> {
    if 0 <= id < s.len() {
        s.update(id, flipped(s[id]))
    } else {
        s
    }
}

/// The list after item `id` is removed; unchanged where `id` names no item.
pub open spec fn deleted(s: Seq<Todo>, id: int) -> Seq<Todo> {
    if 0 <= id < s.len() {
        s.remove(id)
    } else {
        s
    }
}

/// The items of `s` whose status is `complete`, in their order.
pub open spec fn with_status(s: Seq<Todo>, complete: bool) -> Seq<Todo>
    decreases s.len(),
{
    if s.len() == 0 {
        Seq::empty()
    } else {
        let rest = with_status(s.drop_last(), complete);
        if s.last().complete == complete {
            rest.push(s.last())
        } else {
            rest
        }
    }
}

/// A search with the lowercased query `q` and the status `status` keeps `t`:
/// `q` occurs in the lowercased title or description, and the status, if one
/// is asked for, agrees.
pub open spec fn search_keeps(t: Todo, q: Seq<char>, status: Option<bool>) -> bool {
    (has_substring(lower_of(t.title@), q) || has_substring(lower_of(t.description@), q)) && match
        status {
        Some(c) => t.complete == c,
        None => true,
    }
}

/// The items of `s` that a search keeps, in their order.
pub open spec fn kept(s: Seq<Todo>, q: Seq<char>, status: Option<bool>) -> Seq<Todo>
    decreases s.len(),
{
    if s.len() == 0 {
        Seq::empty()
    } else {
        let rest = kept(s.drop_last(), q, status);
        if search_keeps(s.last(), q, status) {
            rest.push(s.last())
        } else {
            rest
        }
    }
}

/// The first `limit` items of `s`, or all of them where there are fewer.
pub open spec fn capped(s: Seq<Todo>, limit: Option<usize>) -> Seq<Todo> {
    match limit {
        Some(n) => if n < s.len() {
            s.take(n as int)
        } else {
            s
        },
        None => s,
    }
}

/// The status that a search's optional filter word asks for, once lowercased.
pub open spec fn search_status(filter: Option<String>) -> Option<bool> {
    match filter {
        Some(f) => status_of(lower_of(f@)),
        None => None,
    }
}

/// What a search answers on the list `s`.
pub open spec fn search_result(s: Seq<Todo>, search: Search) -> Result<Seq<Todo>, ApiError> {
    match search.query {
        Some(q) => Ok(capped(kept(s, lower_of(q@), search_status(search.filter)), search.limit)),
        None => Err(ApiError::MissingQuery),
    }
}

fn copy_list(todos: &Vec<Todo>) -> (r: Vec<Todo>)
    ensures
        r@ == todos@,
{
    let mut r: Vec<Todo> = Vec::new();
    let mut i: usize = 0;
    while i < todos.len()
        invariant
            i <= todos.len(),
            r@ == todos@.take(i as int),
        decreases todos.len() - i,
    {
        r.push(todos[i].clone());
        i = i + 1;
        assert(r@ =~= todos@.take(i as int));
    }
    assert(todos@.take(i as int) =~= todos@);
    r
}

/// Appends `todo` to the end of the list; its id is the list's former length.
pub fn add_todo(todo: Todo, todos: &mut Vec<Todo>) -> (id: usize)
    ensures
        final(todos)@ == created(old(todos)@, todo),
        id == old(todos).len(),
{
    todos.push(todo);
    todos.len() - 1
}

/// The whole list, in stored order.
pub fn get_todos(todos: &Vec<Todo>) -> (r: Vec<Todo>)
    ensures
        r@ == todos@,
{
    copy_list(todos)
}

/// The item whose id is `id`.
pub fn get_todo(id: usize, todos: &Vec<Todo>) -> (r: Result<Todo, ApiError>)
    ensures
        match lookup(todos@, id as int) {
            Some(t) => r == Ok::<Todo, ApiError>(t),
            None => r == Err::<Todo, ApiError>(ApiError::NotFound),
        },
{
    if id >= todos.len() {
        return Err(ApiError::NotFound);
    }
    Ok(todos[id].clone())
}

/// Overwrites the title and description of item `id` with those of
/// `payload`, keeping its status, and answers the updated item.
pub fn update_todo(id: usize, payload: UpdateTodo, todos: &mut Vec<Todo>) -> (r: Result<
    Todo,
    ApiError,
>)
    ensures
        final(todos)@ == updated(old(todos)@, id as int, payload),
        match lookup(final(todos)@, id as int) {
            Some(t) => r == Ok::<Todo, ApiError>(t),
            None => r == Err::<Todo, ApiError>(ApiError::NotFound),
        },
{
    if id >= todos.len() {
        return Err(ApiError::NotFound);
    }
    let complete = todos[id].complete;
    let t = Todo { title: payload.title, description: payload.description, complete };
    todos.set(id, t.clone());
    Ok(t)
}

/// Removes item `id`; every later item moves down by one id. Answers the id
/// that was removed.
pub fn delete_todo(id: usize, todos: &mut Vec<Todo>) -> (r: Result<usize, ApiError>)
    ensures
        final(todos)@ == deleted(old(todos)@, id as int),
        if (id as int) < old(todos)@.len() {
            r == Ok::<usize, ApiError>(id)
        } else {
            r == Err::<usize, ApiError>(ApiError::NotFound)
        },
{
    if id >= todos.len() {
        return Err(ApiError::NotFound);
    }
    todos.remove(id);
    Ok(id)
}

/// Flips the status of item `id` and answers the updated item.
pub fn toggle_complete(id: usize, todos: &mut Vec<Todo>) -> (r: Result<Todo, ApiError>)
    ensures
        final(todos)@ == toggled(old(todos)@, id as int),
        match lookup(final(todos)@, id as int) {
            Some(t) => r == Ok::<Todo, ApiError>(t),
            None => r == Err::<Todo, ApiError>(ApiError::NotFound),
        },
{
    if id >= todos.len() {
        return Err(ApiError::NotFound);
    }
    let old_t = todos[id].clone();
    let t = Todo { complete: !old_t.complete, ..old_t };
    todos.set(id, t.clone());
    Ok(t)
}

/// Keeps the items whose status the word `filter` names (`completed` or
/// `incomplete`), in their order; any other word is an unknown filter.
pub fn filter_todos(filter: &str, todos: &Vec<Todo>) -> (r: Result<Vec<Todo>, ApiError>)
    ensures
        match status_of(filter@) {
            Some(c) => r matches Ok(v) && v@ == with_status(todos@, c),
            None => r == Err::<Vec<Todo>, ApiError>(ApiError::UnknownFilter),
        },
{
    let complete = match parse_status(filter) {
        Some(c) => c,
        None => {
            return Err(ApiError::UnknownFilter);
        },
    };
    let mut out: Vec<Todo> = Vec::new();
    let mut i: usize = 0;
    while i < todos.len()
        invariant
            i <= todos.len(),
            out@ == with_status(todos@.take(i as int), complete),
        decreases todos.len() - i,
    {
        assert(todos@.take(i + 1).drop_last() =~= todos@.take(i as int));
        if todos[i].complete == complete {
            out.push(todos[i].clone());
        }
        i = i + 1;
    }
    assert(todos@.take(i as int) =~= todos@);
    Ok(out)
}

/// Whether a search keeps an item, given its title and description already
/// lowercased, its status, the lowercased query and the status asked for.
pub fn matches_lowered(
    title_lower: &str,
    description_lower: &str,
    complete: bool,
    query_lower: &str,
    status: Option<bool>,
) -> (r: bool)
    ensures
        r == ((has_substring(title_lower@, query_lower@) || has_substring(
            description_lower@,
            query_lower@,
        )) && match status {
            Some(c) => complete == c,
            None => true,
        }),
{
    let found = contains_str(title_lower, query_lower) || contains_str(
        description_lower,
        query_lower,
    );
    found && match status {
        Some(c) => complete == c,
        None => true,
    }
}

/// Searches the list: the items whose lowercased title or description holds
/// the lowercased query, whose status agrees with the filter where the filter
/// is `completed` or `incomplete` (any other filter keeps every status), the
/// first `limit` of them in list order. Without a query the search is refused.
pub fn search_todos(search: Search, todos: &Vec<Todo>) -> (r: Result<Vec<Todo>, ApiError>)
    ensures
        match search_result(todos@, search) {
            Ok(s) => r matches Ok(v) && v@ == s,
            Err(e) => r == Err::<Vec<Todo>, ApiError>(e),
        },
        (search.query matches Some(q) && q@.len() == 0) ==> (r matches Ok(v) && v@ == capped(
            kept(todos@, Seq::empty(), search_status(search.filter)),
            search.limit,
        )),
{
    let query = match &search.query {
        Some(q) => lowercase(q.as_str()),
        None => {
            return Err(ApiError::MissingQuery);
        },
    };
    let status = match &search.filter {
        Some(f) => {
            let f_lower = lowercase(f.as_str());
            parse_status(f_lower.as_str())
        },
        None => None,
    };
    let ghost q = query@;
    assert(search.query.unwrap()@.len() == 0 ==> q =~= Seq::<char>::empty());
    let mut out: Vec<Todo> = Vec::new();
    let mut i: usize = 0;
    while i < todos.len()
        invariant
            i <= todos.len(),
            q == query@,
            status == search_status(search.filter),
            out@ == capped(kept(todos@.take(i as int), q, status), search.limit),
        decreases todos.len() - i,
    {
        let ghost before = kept(todos@.take(i as int), q, status);
        assert(todos@.take(i + 1).drop_last() =~= todos@.take(i as int));
        let room = match search.limit {
            Some(n) => out.len() < n,
            None => true,
        };
        let t = &todos[i];
        let title_lower = lowercase(t.title.as_str());
        let description_lower = lowercase(t.description.as_str());
        if matches_lowered(
            title_lower.as_str(),
            description_lower.as_str(),
            t.complete,
            query.as_str(),
            status,
        ) {
            if room {
                out.push(t.clone());
            }
            proof {
                let after = before.push(*t);
                match search.limit {
                    Some(n) => {
                        if before.len() >= n {
                            assert(after.take(n as int) =~= before.take(n as int));
                        } else {
                            assert(before.len() == out@.len() - 1);
                        }
                    },
                    None => {},
                }
            }
        }
        i = i + 1;
    }
    assert(todos@.take(i as int) =~= todos@);
    Ok(out)
}

} // verus!
