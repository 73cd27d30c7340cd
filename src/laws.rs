use vstd::multiset::Multiset;
use vstd::prelude::*;

use crate::handlers::{
    capped, created, deleted, kept, lookup, patched, search_keeps, search_result, toggled,
    updated, with_status,
};
use crate::text::{has_substring, lower_of, status_of};
use crate::types::{ApiError, Search, Todo, UpdateTodo};

verus! {

/// Creating `t` puts it at the id equal to the former length, and the list
/// grows by exactly one.
pub proof fn create_then_list(s: Seq<Todo>, t: Todo)
    ensures
        created(s, t).len() == s.len() + 1,
        created(s, t)[s.len() as int] == t,
        lookup(created(s, t), s.len() as int) == Some(t),
{
}

/// A lookup keeps answering the same item while no operation touches its id:
/// creating another item, updating or toggling another id, or deleting a later
/// id leaves it as it was.
pub proof fn lookup_stable(s: Seq<Todo>, id: int, other: int, t: Todo, p: UpdateTodo)
    requires
        0 <= id < s.len(),
        other != id,
    ensures
        lookup(created(s, t), id) == lookup(s, id),
        lookup(updated(s, other, p), id) == lookup(s, id),
        lookup(toggled(s, other), id) == lookup(s, id),
        other > id ==> lookup(deleted(s, other), id) == lookup(s, id),
{
}

/// An update replaces the title and description with the patch and never
/// changes the status; a lookup afterwards answers exactly that.
pub proof fn update_keeps_status(s: Seq<Todo>, id: int, p: UpdateTodo)
    requires
        0 <= id < s.len(),
    ensures
        lookup(updated(s, id, p), id) == Some(
            Todo { title: p.title, description: p.description, complete: s[id].complete },
        ),
        updated(s, id, p)[id].complete == s[id].complete,
        updated(s, id, p).len() == s.len(),
{
}

/// Toggling the same id twice gives back the list as it was.
pub proof fn toggle_twice(s: Seq<Todo>, id: int)
    ensures
        toggled(toggled(s, id), id) == s,
{
    if 0 <= id < s.len() {
        assert(toggled(toggled(s, id), id) =~= s);
    }
}

/// Deleting an id removes exactly one item, every later item moves down one
/// id, and after deleting the last item its id names nothing.
pub proof fn delete_shifts(s: Seq<Todo>, id: int)
    requires
        0 <= id < s.len(),
    ensures
        deleted(s, id).len() == s.len() - 1,
        forall|j: int| 0 <= j < id ==> #[trigger] deleted(s, id)[j] == s[j],
        forall|j: int| id <= j < s.len() - 1 ==> #[trigger] deleted(s, id)[j] == s[j + 1],
        lookup(deleted(s, s.len() - 1), s.len() - 1) is None,
{
}

/// The completed and the incomplete items together are the whole list, each
/// item in exactly one of the two; `completed` and `incomplete` are the words
/// that select them.
pub proof fn status_partition(s: Seq<Todo>)
    ensures
        status_of("completed"@) == Some(true),
        status_of("incomplete"@) == Some(false),
        with_status(s, true).to_multiset().add(with_status(s, false).to_multiset())
            =~= s.to_multiset(),
        with_status(s, true).len() + with_status(s, false).len() == s.len(),
        forall|i: int|
            0 <= i < with_status(s, true).len() ==> (#[trigger] with_status(s, true)[i]).complete,
        forall|i: int|
            0 <= i < with_status(s, false).len() ==> !(#[trigger] with_status(
                s,
                false,
            )[i]).complete,
    decreases s.len(),
{
    broadcast use vstd::seq_lib::group_to_multiset_ensures;
    broadcast use vstd::multiset::group_multiset_axioms;

    reveal_strlit("completed");
    reveal_strlit("incomplete");
    assert("incomplete"@.len() != "completed"@.len());
    if s.len() == 0 {
        assert(s.to_multiset() =~= Multiset::empty());
    } else {
        let r = s.drop_last();
        status_partition(r);
        assert(r.push(s.last()) =~= s);
    }
}

/// Every item that `kept` answers is kept by the search and comes from the list.
pub proof fn kept_sound(s: Seq<Todo>, q: Seq<char>, status: Option<bool>)
    ensures
        kept(s, q, status).len() <= s.len(),
        forall|i: int|
            0 <= i < kept(s, q, status).len() ==> search_keeps(
                #[trigger] kept(s, q, status)[i],
                q,
                status,
            ) && s.contains(kept(s, q, status)[i]),
    decreases s.len(),
{
    if s.len() > 0 {
        let r = s.drop_last();
        kept_sound(r, q, status);
        assert forall|i: int| 0 <= i < kept(s, q, status).len() implies search_keeps(
            #[trigger] kept(s, q, status)[i],
            q,
            status,
        ) && s.contains(kept(s, q, status)[i]) by {
            if i < kept(r, q, status).len() {
                let j = choose|j: int| 0 <= j < r.len() && r[j] == kept(r, q, status)[i];
                assert(s[j] == r[j]);
            } else {
                assert(s[s.len() - 1] == s.last());
            }
        }
    }
}

/// A search without a query is refused whatever else it asks; one with a
/// query answers only items of the list whose lowercased title or description
/// holds the lowercased query, and never more than its limit.
pub proof fn search_sound(s: Seq<Todo>, search: Search)
    ensures
        search.query is None ==> search_result(s, search) == Err::<Seq<Todo>, ApiError>(
            ApiError::MissingQuery,
        ),
        search_result(s, search) matches Ok(v) ==> {
            &&& forall|i: int|
                0 <= i < v.len() ==> search_keeps(
                    #[trigger] v[i],
                    crate::text::lower_of(search.query.unwrap()@),
                    crate::handlers::search_status(search.filter),
                ) && s.contains(v[i])
            &&& v.len() <= s.len()
            &&& search.limit matches Some(n) ==> v.len() <= n
        },
{
    if let Some(q) = search.query {
        let lq = crate::text::lower_of(q@);
        let st = crate::handlers::search_status(search.filter);
        kept_sound(s, lq, st);
        let k = kept(s, lq, st);
        let v = capped(k, search.limit);
        assert forall|i: int| 0 <= i < v.len() implies search_keeps(#[trigger] v[i], lq, st)
            && s.contains(v[i]) by {
            assert(v[i] == k[i]);
        }
    }
}

/// An empty query occurs in every title, so a search with it keeps exactly
/// the items of the status asked for, or every item where none is asked for.
pub proof fn empty_query_keeps_status(s: Seq<Todo>, status: Option<bool>)
    ensures
        kept(s, Seq::empty(), status) == match status {
            Some(c) => with_status(s, c),
            None => s,
        },
    decreases s.len(),
{
    if s.len() > 0 {
        let r = s.drop_last();
        empty_query_keeps_status(r, status);
        let t = lower_of(s.last().title@);
        let e = Seq::<char>::empty();
        assert(t.subrange(0, 0 + e.len() as int) =~= e);
        assert(has_substring(t, Seq::empty()));
        assert(r.push(s.last()) =~= s);
    }
}

/// One operation on the list, as a replay of many operations names it.
pub enum Step {
    Create(Todo),
    Update(usize, UpdateTodo),
    Toggle(usize),
    Delete(usize),
}

/// The list after `step`.
pub open spec fn apply_step(s: Seq<Todo>, step: Step) -> Seq<Todo> {
    match step {
        Step::Create(t) => created(s, t),
        Step::Update(j, p) => updated(s, j as int, p),
        Step::Toggle(j) => toggled(s, j as int),
        Step::Delete(j) => deleted(s, j as int),
    }
}

/// The list after each of `steps`, in order.
pub open spec fn replay(s: Seq<Todo>, steps: Seq<Step>) -> Seq<Todo>
    decreases steps.len(),
{
    if steps.len() == 0 {
        s
    } else {
        replay(apply_step(s, steps[0]), steps.drop_first())
    }
}

/// `step` can change what `id` names: it updates or toggles that id, or
/// deletes it or an earlier one.
pub open spec fn touches(step: Step, id: int) -> bool {
    match step {
        Step::Create(_) => false,
        Step::Update(j, _) => j == id,
        Step::Toggle(j) => j == id,
        Step::Delete(j) => j <= id,
    }
}

/// However many operations run, an id keeps naming the same item as long as
/// none of them touches it.
pub proof fn lookup_stable_over_steps(s: Seq<Todo>, steps: Seq<Step>, id: int)
    requires
        0 <= id < s.len(),
        forall|k: int| 0 <= k < steps.len() ==> !touches(#[trigger] steps[k], id),
    ensures
        lookup(replay(s, steps), id) == lookup(s, id),
    decreases steps.len(),
{
    if steps.len() > 0 {
        let first = steps[0];
        let next = apply_step(s, first);
        assert(!touches(steps[0], id));
        match first {
            Step::Create(t) => {
                assert(lookup(created(s, t), id) == lookup(s, id));
            },
            Step::Update(j, p) => {
                assert(lookup(updated(s, j as int, p), id) == lookup(s, id));
            },
            Step::Toggle(j) => {
                assert(lookup(toggled(s, j as int), id) == lookup(s, id));
            },
            Step::Delete(j) => {
                assert(lookup(deleted(s, j as int), id) == lookup(s, id));
            },
        }
        assert forall|k: int| 0 <= k < steps.drop_first().len() implies !touches(
            #[trigger] steps.drop_first()[k],
            id,
        ) by {
            assert(steps.drop_first()[k] == steps[k + 1]);
        }
        lookup_stable_over_steps(next, steps.drop_first(), id);
    }
}

} // verus!
