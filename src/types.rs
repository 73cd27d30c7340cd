use vstd::prelude::*;

verus! {

/// One item of the collection. It carries no identifier of its own: its id is
/// its current position in the list.
pub struct Todo {
    pub title: String,
    pub description: String,
    pub complete: bool,
}

impl Clone for Todo {
    fn clone(&self) -> (r: Todo)
        ensures
            r == *self,
    {
        Todo {
            title: self.title.clone(),
            description: self.description.clone(),
            complete: self.complete,
        }
    }
}

/// The fields that an update overwrites; `complete` is never among them.
pub struct UpdateTodo {
    pub title: String,
    pub description: String,
}

/// What a search asks for: a substring to look for (required), a cap on the
/// number of results, and a status to keep.
pub struct Search {
    pub query: Option<String>,
    pub limit: Option<usize>,
    pub filter: Option<String>,
}

/// Why a request could not be served.
#[derive(Debug, Clone, Copy, PartialEq, Eq, Structural)]
pub enum ApiError {
    /// The id does not name an item of the list.
    NotFound,
    /// The status segment is neither `completed` nor `incomplete`.
    UnknownFilter,
    /// A search came without its `query`.
    MissingQuery,
}

impl ApiError {
    /// The HTTP status that answers this error.
    pub fn status(&self) -> (r: u16)
        ensures
            r == match *self {
                ApiError::NotFound => 404u16,
                ApiError::UnknownFilter => 404u16,
                ApiError::MissingQuery => 400u16,
            },
    {
        match self {
            ApiError::NotFound => 404,
            ApiError::UnknownFilter => 404,
            ApiError::MissingQuery => 400,
        }
    }
}

} // verus!
