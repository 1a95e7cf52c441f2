//! What each request does: the caller's identity, the checks made before
//! the store is touched, and the status that answers each outcome.

use crate::object_id::{is_id_text, TodoId};
use crate::store::{created_item, has_match, owned_by, owns, views, with_done, TodoStore};
use crate::todo::{
    error_status, ApiError, MatchResult, NewTodo, NewTodoWithDone, Todo, UpdateTodoPayload,
    STATUS_NOT_FOUND,
    STATUS_OK,
};
use vstd::prelude::*;

verus! {

/// The caller a request speaks for, as its identity header names it.
pub struct CurrentUserId(pub String);

impl CurrentUserId {
    /// Resolves the caller from the identity header's text, `None` where the
    /// header is absent or unreadable. Absent or empty text is refused: no
    /// anonymous caller is made up.
    pub fn from_header(header: Option<&str>) -> (r: Result<CurrentUserId, ApiError>)
        ensures
            header is None ==> r == Err::<CurrentUserId, ApiError>(ApiError::Unauthenticated),
            header matches Some(h) ==> if h@.len() == 0 {
                r == Err::<CurrentUserId, ApiError>(ApiError::Unauthenticated)
            } else {
                r matches Ok(u) && u.0@ == h@
            },
    {
        match header {
            None => Err(ApiError::Unauthenticated),
            Some(h) => {
                if h.is_empty() {
                    Err(ApiError::Unauthenticated)
                } else {
                    Ok(CurrentUserId(h.to_owned()))
                }
            },
        }
    }
}

/// Reads the identifier in a request's path; `BadRequest` unless it is
/// exactly 24 hexadecimal digits.
pub fn parse_todo_id(text: &str) -> (r: Result<TodoId, ApiError>)
    ensures
        r.is_err() <==> !is_id_text(text@),
        r matches Err(e) ==> e == ApiError::BadRequest,
        r matches Ok(id) ==> id@ == crate::object_id::id_bytes_of(text@),
{
    match TodoId::parse(text) {
        Some(id) => Ok(id),
        None => Err(ApiError::BadRequest),
    }
}

/// Checks a creation body: the title must not be empty.
pub fn check_new_todo(payload: &NewTodo) -> (r: Result<(), ApiError>)
    ensures
        r.is_ok() <==> payload.title@.len() > 0,
        r matches Err(e) ==> e == ApiError::BadRequest,
{
    if payload.title.as_str().is_empty() {
        Err(ApiError::BadRequest)
    } else {
        Ok(())
    }
}

/// The outcome of a targeted change from how many records the store
/// matched, or `None` where the store failed: exactly one is `Updated`.
pub fn match_outcome(matched: Option<u64>) -> (r: Result<MatchResult, ApiError>)
    ensures
        matched is None ==> r == Err::<MatchResult, ApiError>(ApiError::StorageUnavailable),
        matched matches Some(n) ==> r == Ok::<MatchResult, ApiError>(
            if n == 1 {
                MatchResult::Updated
            } else {
                MatchResult::NotFound
            },
        ),
{
    match matched {
        None => Err(ApiError::StorageUnavailable),
        Some(n) => {
            if n == 1 {
                Ok(MatchResult::Updated)
            } else {
                Ok(MatchResult::NotFound)
            }
        },
    }
}

/// The status of a change request's outcome.
pub open spec fn outcome_status(r: Result<MatchResult, ApiError>) -> u16 {
    match r {
        Ok(MatchResult::Updated) => STATUS_OK,
        Ok(MatchResult::NotFound) => STATUS_NOT_FOUND,
        Err(e) => error_status(e),
    }
}

/// The status that answers a change request: 200 where the item was found,
/// 404 where not, the error's own status otherwise.
pub fn mutation_status(r: Result<MatchResult, ApiError>) -> (s: u16)
    ensures
        s == outcome_status(r),
{
    match r {
        Ok(MatchResult::Updated) => STATUS_OK,
        Ok(MatchResult::NotFound) => STATUS_NOT_FOUND,
        Err(e) => e.status(),
    }
}

/// The item a creation stored, from the identifier the store reports for
/// it; `StorageUnavailable` where the store reported no identifier.
pub fn created_todo(user_id: String, title: String, inserted: Option<TodoId>) -> (r: Result<
    Todo,
    ApiError,
>)
    ensures
        inserted is None ==> r == Err::<Todo, ApiError>(ApiError::StorageUnavailable),
        inserted matches Some(id) ==> r matches Ok(t) && t@ == created_item(
            id@,
            user_id@,
            title@,
        ),
{
    match inserted {
        None => Err(ApiError::StorageUnavailable),
        Some(id) => Ok(Todo { id, user_id, title, done: false }),
    }
}

/// Lists the caller's items.
pub fn get_todos(store: &TodoStore, user: &CurrentUserId) -> (r: Vec<Todo>)
    requires
        store.wf(),
    ensures
        views(r@) == owned_by(store@, user.0@),
{
    store.list(&user.0)
}

/// Creates an item of the caller, not done, with the body's title. An empty
/// title is `BadRequest` and leaves the store as it was.
pub fn create_todo(store: &mut TodoStore, user: &CurrentUserId, payload: NewTodo) -> (r: Result<
    Todo,
    ApiError,
>)
    requires
        old(store).wf(),
    ensures
        final(store).wf(),
        payload.title@.len() == 0 ==> r == Err::<Todo, ApiError>(ApiError::BadRequest),
        payload.title@.len() > 0 ==> (r.is_ok() <==> old(store).issued() < u64::MAX),
        r matches Ok(t) ==> {
            &&& t@.user_id == user.0@ && t@.title == payload.title@ && !t@.done
            &&& t@.id.len() == crate::object_id::ID_LEN
            &&& forall|i: int| 0 <= i < old(store)@.len() ==> old(store)@[i].id != t@.id
            &&& final(store)@ == old(store)@.push(t@)
        },
        r matches Err(e) ==> final(store)@ == old(store)@ && (e == ApiError::BadRequest || e
            == ApiError::StorageUnavailable),
{
    match check_new_todo(&payload) {
        Err(e) => Err(e),
        Ok(()) => store.create(&user.0, &payload.title, false),
    }
}

/// Sets the completion flag of the caller's item named in the path. An
/// identifier that does not parse is 400 and the store is not touched;
/// otherwise 200 where the caller has the item, else 404.
pub fn update_todo(
    store: &mut TodoStore,
    user: &CurrentUserId,
    id: &str,
    payload: UpdateTodoPayload,
) -> (r: u16)
    requires
        old(store).wf(),
    ensures
        final(store).wf(),
        !is_id_text(id@) ==> r == error_status(ApiError::BadRequest) && final(store)@ == old(
            store,
        )@,
        is_id_text(id@) ==> {
            let key = crate::object_id::id_bytes_of(id@);
            if has_match(old(store)@, key, user.0@) {
                &&& r == STATUS_OK
                &&& exists|i: int|
                    0 <= i < old(store)@.len() && crate::store::owns(
                        #[trigger] old(store)@[i],
                        key,
                        user.0@,
                    ) && final(store)@ == old(store)@.update(
                        i,
                        crate::store::with_done(old(store)@[i], payload.done),
                    )
            } else {
                r == STATUS_NOT_FOUND && final(store)@ == old(store)@
            }
        },
{
    let outcome = match parse_todo_id(id) {
        Err(e) => Err(e),
        Ok(key) => Ok(store.update_done(&user.0, &key, payload.done)),
    };
    mutation_status(outcome)
}

/// Removes the caller's item named in the path. An identifier that does not
/// parse is 400 and the store is not touched; otherwise 200 where the caller
/// had the item, else 404.
pub fn delete_todo(store: &mut TodoStore, user: &CurrentUserId, id: &str) -> (r: u16)
    requires
        old(store).wf(),
    ensures
        final(store).wf(),
        !is_id_text(id@) ==> r == error_status(ApiError::BadRequest) && final(store)@ == old(
            store,
        )@,
        is_id_text(id@) ==> {
            let key = crate::object_id::id_bytes_of(id@);
            if has_match(old(store)@, key, user.0@) {
                &&& r == STATUS_OK
                &&& exists|i: int|
                    0 <= i < old(store)@.len() && crate::store::owns(
                        #[trigger] old(store)@[i],
                        key,
                        user.0@,
                    ) && final(store)@ == old(store)@.remove(i)
            } else {
                r == STATUS_NOT_FOUND && final(store)@ == old(store)@
            }
        },
{
    let outcome = match parse_todo_id(id) {
        Err(e) => Err(e),
        Ok(key) => Ok(store.delete(&user.0, &key)),
    };
    mutation_status(outcome)
}

/// Creates an item of the caller with the title and the completion flag
/// that the body gives, for the mode in which callers choose the flag at
/// creation. An empty title is `BadRequest` and leaves the store as it was.
pub fn create_todo_with_done(
    store: &mut TodoStore,
    user: &CurrentUserId,
    payload: NewTodoWithDone,
) -> (r: Result<Todo, ApiError>)
    requires
        old(store).wf(),
    ensures
        final(store).wf(),
        payload.title@.len() == 0 ==> r == Err::<Todo, ApiError>(ApiError::BadRequest),
        payload.title@.len() > 0 ==> (r.is_ok() <==> old(store).issued() < u64::MAX),
        r matches Ok(t) ==> {
            &&& t@.user_id == user.0@ && t@.title == payload.title@ && t@.done == payload.done
            &&& t@.id.len() == crate::object_id::ID_LEN
            &&& forall|i: int| 0 <= i < old(store)@.len() ==> old(store)@[i].id != t@.id
            &&& final(store)@ == old(store)@.push(t@)
        },
        r matches Err(e) ==> final(store)@ == old(store)@ && (e == ApiError::BadRequest || e
            == ApiError::StorageUnavailable),
{
    if payload.title.as_str().is_empty() {
        return Err(ApiError::BadRequest);
    }
    store.create(&user.0, &payload.title, payload.done)
}

/// Sets the completion flag of the caller's item named in the path and
/// answers with the item as read back afterwards, for the mode that answers
/// updates with a body. `BadRequest` where the identifier does not parse,
/// `NotFound` where the caller has no such item; either leaves the store
/// as it was.
pub fn update_todo_returning(
    store: &mut TodoStore,
    user: &CurrentUserId,
    id: &str,
    payload: UpdateTodoPayload,
) -> (r: Result<Todo, ApiError>)
    requires
        old(store).wf(),
    ensures
        final(store).wf(),
        !is_id_text(id@) ==> r == Err::<Todo, ApiError>(ApiError::BadRequest) && final(store)@
            == old(store)@,
        is_id_text(id@) ==> {
            let key = crate::object_id::id_bytes_of(id@);
            if has_match(old(store)@, key, user.0@) {
                exists|i: int|
                    0 <= i < old(store)@.len() && owns(#[trigger] old(store)@[i], key, user.0@)
                        && final(store)@ == old(store)@.update(
                        i,
                        with_done(old(store)@[i], payload.done),
                    ) && (r matches Ok(t) && t@ == with_done(old(store)@[i], payload.done))
            } else {
                r == Err::<Todo, ApiError>(ApiError::NotFound) && final(store)@ == old(store)@
            }
        },
{
    let key = match parse_todo_id(id) {
        Err(e) => return Err(e),
        Ok(key) => key,
    };
    let ghost s0 = store@;
    match store.update_done(&user.0, &key, payload.done) {
        MatchResult::NotFound => Err(ApiError::NotFound),
        MatchResult::Updated => {
            let ghost i = choose|i: int|
                0 <= i < s0.len() && owns(#[trigger] s0[i], key@, user.0@) && store@ == s0.update(
                    i,
                    with_done(s0[i], payload.done),
                );
            proof {
                store.lemma_ids_unique();
            }
            match store.get(&user.0, &key) {
                None => {
                    assert(owns(store@[i], key@, user.0@));
                    Err(ApiError::NotFound)
                },
                Some(t) => {
                    assert(owns(store@[i], key@, user.0@));
                    Ok(t)
                },
            }
        },
    }
}

/// Removes the caller's item named in the path and answers whether one was
/// removed, for the mode that answers removals with a flag rather than a
/// 404. `BadRequest` where the identifier does not parse, and then the
/// store is not touched.
pub fn delete_todo_reporting(store: &mut TodoStore, user: &CurrentUserId, id: &str) -> (r: Result<
    bool,
    ApiError,
>)
    requires
        old(store).wf(),
    ensures
        final(store).wf(),
        !is_id_text(id@) ==> r == Err::<bool, ApiError>(ApiError::BadRequest) && final(store)@
            == old(store)@,
        is_id_text(id@) ==> {
            let key = crate::object_id::id_bytes_of(id@);
            &&& r == Ok::<bool, ApiError>(has_match(old(store)@, key, user.0@))
            &&& has_match(old(store)@, key, user.0@) ==> exists|i: int|
                0 <= i < old(store)@.len() && owns(#[trigger] old(store)@[i], key, user.0@)
                    && final(store)@ == old(store)@.remove(i)
            &&& !has_match(old(store)@, key, user.0@) ==> final(store)@ == old(store)@
        },
{
    let key = match parse_todo_id(id) {
        Err(e) => return Err(e),
        Ok(key) => key,
    };
    match store.delete(&user.0, &key) {
        MatchResult::Updated => Ok(true),
        MatchResult::NotFound => Ok(false),
    }
}

} // verus!
