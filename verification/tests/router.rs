use todo_service::router::route;
use todo_service::router::Method;
use todo_service::router::Route;
use todo_service::router::RouteOutcome;

const ID_TEXT: &str = "550e8400-e29b-41d4-a716-446655440000";

fn id_value() -> u128 {
    uuid::Uuid::parse_str(ID_TEXT).unwrap().as_u128()
}

#[test]
fn root_greets_on_get_only() {
    assert_eq!(route(Method::Get, "/"), RouteOutcome::Matched(Route::Hello));
    assert_eq!(route(Method::Post, "/"), RouteOutcome::NoRoute);
    assert_eq!(route(Method::Delete, "/"), RouteOutcome::NoRoute);
}

#[test]
fn collection_path_lists_and_creates() {
    assert_eq!(
        route(Method::Get, "/todos"),
        RouteOutcome::Matched(Route::ListTodos)
    );
    assert_eq!(
        route(Method::Post, "/todos"),
        RouteOutcome::Matched(Route::CreateTodo)
    );
    assert_eq!(route(Method::Put, "/todos"), RouteOutcome::NoRoute);
    assert_eq!(route(Method::Delete, "/todos"), RouteOutcome::NoRoute);
}

#[test]
fn record_path_binds_fetch_update_delete() {
    let path = format!("/todos/{}", ID_TEXT);
    let id = id_value();
    assert_eq!(
        route(Method::Get, &path),
        RouteOutcome::Matched(Route::GetTodo(id))
    );
    assert_eq!(
        route(Method::Put, &path),
        RouteOutcome::Matched(Route::UpdateTodo(id))
    );
    assert_eq!(
        route(Method::Delete, &path),
        RouteOutcome::Matched(Route::DeleteTodo(id))
    );
    assert_eq!(route(Method::Post, &path), RouteOutcome::NoRoute);
}

#[test]
fn malformed_id_segment_is_a_client_error() {
    assert_eq!(
        route(Method::Get, "/todos/not-a-uuid"),
        RouteOutcome::MalformedId
    );
}

#[test]
fn unknown_paths_match_no_route() {
    assert_eq!(route(Method::Get, ""), RouteOutcome::NoRoute);
    assert_eq!(route(Method::Get, "/nope"), RouteOutcome::NoRoute);
    assert_eq!(route(Method::Get, "/todos2"), RouteOutcome::NoRoute);
}
