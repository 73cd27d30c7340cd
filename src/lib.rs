//! An in-memory todo collection: positional ids over one list, and create /
//! read / update / delete / toggle / filter / search operations on it with
//! verified contracts.
use vstd::prelude::*;

pub mod handlers;
pub mod laws;
pub mod store;
pub mod text;
pub mod types;

verus! {

} // verus!
