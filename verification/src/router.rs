use vstd::prelude::*;

use crate::ident::uuid_from_str;
use crate::ident::uuid_of_text;

verus! {

/// The HTTP methods the service routes.
#[derive(Clone, Copy, PartialEq, Eq, Structural, Debug)]
pub enum Method {
    Get,
    Post,
    Put,
    Delete,
}

/// The operation a request is bound to, carrying the parsed identifier where
/// the path names a single record.
#[derive(Clone, Copy, PartialEq, Eq, Structural, Debug)]
pub enum Route {
    Hello,
    ListTodos,
    CreateTodo,
    GetTodo(u128),
    UpdateTodo(u128),
    DeleteTodo(u128),
}

/// The router's decision: a matched operation, a malformed identifier segment
/// (a client error, never forwarded to storage), or no binding for the
/// method and path.
#[derive(Clone, Copy, PartialEq, Eq, Structural, Debug)]
pub enum RouteOutcome {
    Matched(Route),
    MalformedId,
    NoRoute,
}

/// Whether `p` lies under the single-record path: "/todos/" followed by an
/// identifier segment.
pub open spec fn has_todo_item_prefix(p: Seq<char>) -> bool {
    p.len() > 7 && p.subrange(0, 7) == "/todos/"@
}

/// The identifier segment of a single-record path.
pub open spec fn id_segment(p: Seq<char>) -> Seq<char> {
    p.subrange(7, p.len() as int)
}

/// The route table: GET / greets; GET and POST /todos list and create; GET,
/// PUT and DELETE /todos/{id} fetch, update and delete the record whose
/// identifier the path carries, when that segment is a well-formed UUID.
pub open spec fn spec_route(m: Method, p: Seq<char>) -> RouteOutcome {
    if p == "/"@ {
        if m == Method::Get {
            RouteOutcome::Matched(Route::Hello)
        } else {
            RouteOutcome::NoRoute
        }
    } else if p == "/todos"@ {
        match m {
            Method::Get => RouteOutcome::Matched(Route::ListTodos),
            Method::Post => RouteOutcome::Matched(Route::CreateTodo),
            _ => RouteOutcome::NoRoute,
        }
    } else if has_todo_item_prefix(p) {
        match uuid_of_text(id_segment(p)) {
            Some(id) => match m {
                Method::Get => RouteOutcome::Matched(Route::GetTodo(id)),
                Method::Put => RouteOutcome::Matched(Route::UpdateTodo(id)),
                Method::Delete => RouteOutcome::Matched(Route::DeleteTodo(id)),
                Method::Post => RouteOutcome::NoRoute,
            },
            None => RouteOutcome::MalformedId,
        }
    } else {
        RouteOutcome::NoRoute
    }
}

/// Character-by-character string equality, proved against the views.
fn str_equal(a: &str, b: &str) -> (r: bool)
    ensures
        r == (a@ == b@),
{
    let alen: usize = a.unicode_len();
    let blen: usize = b.unicode_len();
    if alen != blen {
        return false;
    }
    let mut i: usize = 0;
    while i < alen
        invariant
            alen == a@.len(),
            blen == b@.len(),
            alen == blen,
            i <= alen,
            forall|j: int| 0 <= j < i ==> a@[j] == b@[j],
        decreases alen - i,
    {
        if a.get_char(i) != b.get_char(i) {
            return false;
        }
        i = i + 1;
    }
    proof {
        assert(a@ =~= b@);
    }
    true
}

/// Binds a request's method and path to its operation: the executable side
/// of `spec_route`, with the identifier segment handed to uuid's parser.
pub fn route(m: Method, path: &str) -> (r: RouteOutcome)
    ensures
        r == spec_route(m, path@),
{
    if str_equal(path, "/") {
        match m {
            Method::Get => RouteOutcome::Matched(Route::Hello),
            _ => RouteOutcome::NoRoute,
        }
    } else if str_equal(path, "/todos") {
        match m {
            Method::Get => RouteOutcome::Matched(Route::ListTodos),
            Method::Post => RouteOutcome::Matched(Route::CreateTodo),
            _ => RouteOutcome::NoRoute,
        }
    } else {
        let plen: usize = path.unicode_len();
        if plen > 7 {
            let prefix = path.substring_char(0, 7);
            if str_equal(prefix, "/todos/") {
                let seg = path.substring_char(7, plen);
                match uuid_from_str(seg) {
                    Some(id) => match m {
                        Method::Get => RouteOutcome::Matched(Route::GetTodo(id)),
                        Method::Put => RouteOutcome::Matched(Route::UpdateTodo(id)),
                        Method::Delete => RouteOutcome::Matched(Route::DeleteTodo(id)),
                        Method::Post => RouteOutcome::NoRoute,
                    },
                    None => RouteOutcome::MalformedId,
                }
            } else {
                RouteOutcome::NoRoute
            }
        } else {
            RouteOutcome::NoRoute
        }
    }
}

} // verus!
