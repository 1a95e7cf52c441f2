//! Items, request payloads and the outcomes a request can have.

use crate::object_id::TodoId;
use vstd::prelude::*;

verus! {

/// A stored item: its identifier, the caller who created it, its title and
/// its completion flag.
pub struct Todo {
    pub id: TodoId,
    pub user_id: String,
    pub title: String,
    pub done: bool,
}

/// What a stored item is, as plain values.
pub struct TodoView {
    pub id: Seq<u8>,
    pub user_id: Seq<char>,
    pub title: Seq<char>,
    pub done: bool,
}

impl View for Todo {
    type V = TodoView;

    open spec fn view(&self) -> TodoView {
        TodoView { id: self.id@, user_id: self.user_id@, title: self.title@, done: self.done }
    }
}

impl Todo {
    /// A copy of the item.
    pub fn copied(&self) -> (r: Todo)
        ensures
            r@ == self@,
    {
        Todo {
            id: self.id.copied(),
            user_id: self.user_id.clone(),
            title: self.title.clone(),
            done: self.done,
        }
    }
}

/// The body of a creation request.
pub struct NewTodo {
    pub title: String,
}

/// The body of a creation request that also sets the completion flag.
pub struct NewTodoWithDone {
    pub title: String,
    pub done: bool,
}

/// The body of an update request.
pub struct UpdateTodoPayload {
    pub done: bool,
}

/// Whether a targeted change found its item.
#[derive(PartialEq, Eq, Structural, Clone, Copy, Debug)]
pub enum MatchResult {
    Updated,
    NotFound,
}

/// Why a request did not succeed.
#[derive(PartialEq, Eq, Structural, Clone, Copy, Debug)]
pub enum ApiError {
    /// A malformed body or an identifier that does not parse.
    BadRequest,
    /// No caller identity came with the request.
    Unauthenticated,
    /// No item of the caller has the identifier.
    NotFound,
    /// The store could not serve the request.
    StorageUnavailable,
}

pub const STATUS_OK: u16 = 200;
pub const STATUS_BAD_REQUEST: u16 = 400;
pub const STATUS_UNAUTHORIZED: u16 = 401;
pub const STATUS_NOT_FOUND: u16 = 404;
pub const STATUS_INTERNAL_ERROR: u16 = 500;

/// The HTTP status that answers an error.
pub open spec fn error_status(e: ApiError) -> u16 {
    match e {
        ApiError::BadRequest => STATUS_BAD_REQUEST,
        ApiError::Unauthenticated => STATUS_UNAUTHORIZED,
        ApiError::NotFound => STATUS_NOT_FOUND,
        ApiError::StorageUnavailable => STATUS_INTERNAL_ERROR,
    }
}

impl ApiError {
    /// The HTTP status that answers this error.
    pub fn status(&self) -> (r: u16)
        ensures
            r == error_status(*self),
    {
        match self {
            ApiError::BadRequest => STATUS_BAD_REQUEST,
            ApiError::Unauthenticated => STATUS_UNAUTHORIZED,
            ApiError::NotFound => STATUS_NOT_FOUND,
            ApiError::StorageUnavailable => STATUS_INTERNAL_ERROR,
        }
    }
}

} // verus!
