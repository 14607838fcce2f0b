use vstd::prelude::*;

use crate::clock::now_micros;
use crate::error::ApiError;
use crate::error::ErrorKind;
use crate::model::CreateTodo;
use crate::model::Todo;
use crate::model::UpdateTodo;
use crate::store::apply_update;
use crate::store::has_id;
use crate::store::index_of_id;
use crate::store::lookup;
use crate::store::views_of;
use crate::store::TodoStore;

verus! {

/// The static greeting, touching no persistence.
pub fn hello() -> (r: &'static str)
    ensures
        r@ == "Hello, World!"@,
{
    "Hello, World!"
}

/// ListAll behind GET /todos: every stored record in storage order; an empty
/// collection is a valid result, not an error.
pub fn get_todos(store: &TodoStore) -> (r: Result<Vec<Todo>, ApiError>)
    ensures
        r is Ok,
        match r {
            Ok(v) => views_of(v@) == store@,
            Err(_) => false,
        },
{
    Ok(store.list_all())
}

/// Insert behind POST /todos: persists a record with the decoded title, a
/// fresh identifier never issued before, `completed` false and the current
/// wall-clock time, and returns the full created record. Succeeds for every
/// payload unless the identifier space is exhausted, which is surfaced as a
/// storage failure.
pub fn create_todo(store: &mut TodoStore, payload: CreateTodo) -> (r: Result<Todo, ApiError>)
    requires
        old(store).inv(),
    ensures
        final(store).inv(),
        r is Ok <==> !old(store).at_capacity(),
        match r {
            Ok(t) => {
                &&& t@.title == payload.title@
                &&& t@.completed == false
                &&& !old(store).issued_ids().contains(t@.id)
                &&& !has_id(old(store)@, t@.id)
                &&& final(store)@ == old(store)@.push(t@)
                &&& final(store).issued_ids() == old(store).issued_ids().insert(t@.id)
            },
            Err(e) => {
                &&& e.kind == ErrorKind::StorageFailure
                &&& *final(store) == *old(store)
            },
        },
{
    let now: i64 = now_micros();
    store.insert(payload.title, now)
}

/// FetchById behind GET /todos/{id}: the matching record, or Not-Found when
/// no record has the given identifier.
pub fn get_todo(store: &TodoStore, id: u128) -> (r: Result<Todo, ApiError>)
    ensures
        r is Ok <==> has_id(store@, id),
        match r {
            Ok(t) => lookup(store@, id) == Some(t@),
            Err(e) => {
                &&& e.kind == ErrorKind::NotFound
                &&& e.detail@ == "Todo not found"@
            },
        },
{
    store.fetch_by_id(id)
}

/// PartialUpdate behind PUT /todos/{id}: overwrites each supplied field of
/// the matching record, keeps each absent one, and returns the post-update
/// record; Not-Found when no record matches. With both fields absent the
/// record is returned, and left, unchanged.
pub fn update_todo(store: &mut TodoStore, id: u128, payload: UpdateTodo) -> (r: Result<
    Todo,
    ApiError,
>)
    requires
        old(store).inv(),
    ensures
        final(store).inv(),
        final(store).issued_ids() == old(store).issued_ids(),
        r is Ok <==> has_id(old(store)@, id),
        match r {
            Ok(t) => {
                &&& lookup(old(store)@, id) is Some
                &&& t@ == apply_update(lookup(old(store)@, id).unwrap(), payload.title, payload.completed)
                &&& final(store)@ == old(store)@.update(index_of_id(old(store)@, id), t@)
            },
            Err(e) => {
                &&& *final(store) == *old(store)
                &&& e.kind == ErrorKind::NotFound
                &&& e.detail@ == "Todo not found"@
            },
        },
{
    store.partial_update(id, payload.title, payload.completed)
}

/// Delete behind DELETE /todos/{id}: removes the matching record permanently
/// and succeeds with no body; Not-Found when no record matches — also on
/// every repetition after a successful delete.
pub fn delete_todo(store: &mut TodoStore, id: u128) -> (r: Result<(), ApiError>)
    requires
        old(store).inv(),
    ensures
        final(store).inv(),
        final(store).issued_ids() == old(store).issued_ids(),
        r is Ok <==> has_id(old(store)@, id),
        match r {
            Ok(_) => {
                &&& final(store)@ == old(store)@.remove(index_of_id(old(store)@, id))
                &&& !has_id(final(store)@, id)
            },
            Err(e) => {
                &&& *final(store) == *old(store)
                &&& e.kind == ErrorKind::NotFound
                &&& e.detail@ == "Todo not found"@
            },
        },
{
    store.delete(id)
}

/// A fully decoded request: the matched operation together with its decoded
/// body, ready for dispatch against the store.
#[derive(Debug)]
pub enum ApiRequest {
    Hello,
    ListTodos,
    CreateTodo(CreateTodo),
    GetTodo(u128),
    UpdateTodo(u128, UpdateTodo),
    DeleteTodo(u128),
}

/// A successful response body: the greeting, the full collection, a single
/// record, or the empty body of a successful delete.
#[derive(Debug)]
pub enum ApiResponse {
    Greeting(&'static str),
    Records(Vec<Todo>),
    Record(Todo),
    NoBody,
}

/// The dispatcher: runs one decoded request against the store and produces
/// the response body, or the error that the boundary maps to a status code.
/// Each arm keeps exactly the contract of the handler it invokes.
pub fn dispatch(store: &mut TodoStore, req: ApiRequest) -> (r: Result<ApiResponse, ApiError>)
    requires
        old(store).inv(),
    ensures
        final(store).inv(),
        old(store).issued_ids().subset_of(final(store).issued_ids()),
        match req {
            ApiRequest::Hello => {
                &&& r matches Ok(ApiResponse::Greeting(g)) && g@ == "Hello, World!"@
                &&& *final(store) == *old(store)
            },
            ApiRequest::ListTodos => {
                &&& r matches Ok(ApiResponse::Records(v)) && views_of(v@) == old(store)@
                &&& *final(store) == *old(store)
            },
            ApiRequest::CreateTodo(payload) => {
                &&& r is Ok <==> !old(store).at_capacity()
                &&& match r {
                    Ok(resp) => {
                        &&& resp matches ApiResponse::Record(t)
                        &&& t@.title == payload.title@
                        &&& t@.completed == false
                        &&& !old(store).issued_ids().contains(t@.id)
                        &&& final(store)@ == old(store)@.push(t@)
                        &&& final(store).issued_ids() == old(store).issued_ids().insert(t@.id)
                    },
                    Err(e) => e.kind == ErrorKind::StorageFailure && *final(store) == *old(
                        store,
                    ),
                }
            },
            ApiRequest::GetTodo(id) => {
                &&& r is Ok <==> has_id(old(store)@, id)
                &&& match r {
                    Ok(resp) => resp matches ApiResponse::Record(t) && lookup(old(store)@, id)
                        == Some(t@),
                    Err(e) => e.kind == ErrorKind::NotFound && e.detail@ == "Todo not found"@,
                }
                &&& *final(store) == *old(store)
            },
            ApiRequest::UpdateTodo(id, payload) => {
                &&& r is Ok <==> has_id(old(store)@, id)
                &&& match r {
                    Ok(resp) => {
                        &&& resp matches ApiResponse::Record(t)
                        &&& t@ == apply_update(
                            lookup(old(store)@, id).unwrap(),
                            payload.title,
                            payload.completed,
                        )
                        &&& final(store)@ == old(store)@.update(
                            index_of_id(old(store)@, id),
                            t@,
                        )
                    },
                    Err(e) => {
                        &&& e.kind == ErrorKind::NotFound
                        &&& e.detail@ == "Todo not found"@
                        &&& *final(store) == *old(store)
                    },
                }
            },
            ApiRequest::DeleteTodo(id) => {
                &&& r is Ok <==> has_id(old(store)@, id)
                &&& match r {
                    Ok(resp) => {
                        &&& resp is NoBody
                        &&& final(store)@ == old(store)@.remove(index_of_id(old(store)@, id))
                        &&& !has_id(final(store)@, id)
                    },
                    Err(e) => {
                        &&& e.kind == ErrorKind::NotFound
                        &&& e.detail@ == "Todo not found"@
                        &&& *final(store) == *old(store)
                    },
                }
            },
        },
{
    match req {
        ApiRequest::Hello => Ok(ApiResponse::Greeting(hello())),
        ApiRequest::ListTodos => {
            match get_todos(store) {
                Ok(v) => Ok(ApiResponse::Records(v)),
                Err(e) => Err(e),
            }
        },
        ApiRequest::CreateTodo(payload) => {
            match create_todo(store, payload) {
                Ok(t) => Ok(ApiResponse::Record(t)),
                Err(e) => Err(e),
            }
        },
        ApiRequest::GetTodo(id) => {
            match get_todo(store, id) {
                Ok(t) => Ok(ApiResponse::Record(t)),
                Err(e) => Err(e),
            }
        },
        ApiRequest::UpdateTodo(id, payload) => {
            match update_todo(store, id, payload) {
                Ok(t) => Ok(ApiResponse::Record(t)),
                Err(e) => Err(e),
            }
        },
        ApiRequest::DeleteTodo(id) => {
            match delete_todo(store, id) {
                Ok(_) => Ok(ApiResponse::NoBody),
                Err(e) => Err(e),
            }
        },
    }
}

} // verus!
