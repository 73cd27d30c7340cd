use vstd::prelude::*;

use crate::types::Todo;

verus! {

/// The one list of the process. Every handler works on `todolist`; callers
/// that share a store between requests hold it behind a reader-writer lock.
pub struct Store {
    pub todolist: Vec<Todo>,
}

impl Store {
    /// A store that holds an empty list.
    pub fn new() -> (r: Store)
        ensures
            r.todolist@ == Seq::<Todo>::empty(),
    {
        Store { todolist: Vec::new() }
    }
}

} // verus!
