use todo_service::error::ApiError;
use todo_service::error::ErrorKind;
use todo_service::handlers::create_todo;
use todo_service::handlers::delete_todo;
use todo_service::handlers::get_todo;
use todo_service::handlers::get_todos;
use todo_service::handlers::hello;
use todo_service::handlers::update_todo;
use todo_service::model::CreateTodo;
use todo_service::model::Todo;
use todo_service::model::UpdateTodo;
use todo_service::store::TodoStore;

fn create(store: &mut TodoStore, title: &str) -> Todo {
    create_todo(store, CreateTodo { title: title.to_string() }).unwrap()
}

#[test]
fn hello_greets() {
    assert_eq!(hello(), "Hello, World!");
}

#[test]
fn create_then_fetch_returns_identical_record() {
    let mut store = TodoStore::new();
    let t = create(&mut store, "Buy milk");
    assert_eq!(t.title, "Buy milk");
    assert!(!t.completed);
    let fetched = get_todo(&store, t.id).unwrap();
    assert_eq!(fetched.id, t.id);
    assert_eq!(fetched.title, t.title);
    assert_eq!(fetched.completed, t.completed);
    assert_eq!(fetched.created_at, t.created_at);
}

#[test]
fn list_of_empty_store_is_empty_not_error() {
    let store = TodoStore::new();
    let all = get_todos(&store).unwrap();
    assert!(all.is_empty());
}

#[test]
fn list_returns_records_in_storage_order() {
    let mut store = TodoStore::new();
    let a = create(&mut store, "first");
    let b = create(&mut store, "second");
    let all = get_todos(&store).unwrap();
    assert_eq!(all.len(), 2);
    assert_eq!(all[0].id, a.id);
    assert_eq!(all[0].title, "first");
    assert_eq!(all[1].id, b.id);
    assert_eq!(all[1].title, "second");
}

#[test]
fn fetch_of_unused_id_is_not_found() {
    let mut store = TodoStore::new();
    let t = create(&mut store, "only");
    let unused: u128 = t.id.wrapping_add(12345);
    let err = get_todo(&store, unused).unwrap_err();
    assert!(err.kind == ErrorKind::NotFound);
    assert_eq!(err.status_code(), 404);
    assert_eq!(err.detail, "Todo not found");
}

#[test]
fn update_completed_only_keeps_title() {
    let mut store = TodoStore::new();
    let t = create(&mut store, "Buy milk");
    let u = update_todo(
        &mut store,
        t.id,
        UpdateTodo { title: None, completed: Some(true) },
    )
    .unwrap();
    assert_eq!(u.title, "Buy milk");
    assert!(u.completed);
    assert_eq!(u.id, t.id);
    assert_eq!(u.created_at, t.created_at);
}

#[test]
fn update_title_only_keeps_completed() {
    let mut store = TodoStore::new();
    let t = create(&mut store, "Buy milk");
    update_todo(
        &mut store,
        t.id,
        UpdateTodo { title: None, completed: Some(true) },
    )
    .unwrap();
    let u = update_todo(
        &mut store,
        t.id,
        UpdateTodo { title: Some("Buy bread".to_string()), completed: None },
    )
    .unwrap();
    assert_eq!(u.title, "Buy bread");
    assert!(u.completed);
    let fetched = get_todo(&store, t.id).unwrap();
    assert_eq!(fetched.title, "Buy bread");
    assert!(fetched.completed);
}

#[test]
fn update_with_no_fields_returns_record_unchanged() {
    let mut store = TodoStore::new();
    let t = create(&mut store, "Buy milk");
    let u = update_todo(
        &mut store,
        t.id,
        UpdateTodo { title: None, completed: None },
    )
    .unwrap();
    assert_eq!(u.id, t.id);
    assert_eq!(u.title, t.title);
    assert_eq!(u.completed, t.completed);
    assert_eq!(u.created_at, t.created_at);
}

#[test]
fn update_of_unused_id_is_not_found() {
    let mut store = TodoStore::new();
    let err = update_todo(
        &mut store,
        7,
        UpdateTodo { title: None, completed: Some(true) },
    )
    .unwrap_err();
    assert!(err.kind == ErrorKind::NotFound);
    assert_eq!(err.status_code(), 404);
}

#[test]
fn delete_removes_record_and_following_fetch_is_not_found() {
    let mut store = TodoStore::new();
    let t = create(&mut store, "gone soon");
    assert!(delete_todo(&mut store, t.id).is_ok());
    let err = get_todo(&store, t.id).unwrap_err();
    assert!(err.kind == ErrorKind::NotFound);
    assert_eq!(err.status_code(), 404);
}

#[test]
fn delete_of_unused_id_is_not_found() {
    let mut store = TodoStore::new();
    let err = delete_todo(&mut store, 42).unwrap_err();
    assert!(err.kind == ErrorKind::NotFound);
    assert_eq!(err.status_code(), 404);
}

#[test]
fn repeated_delete_stays_not_found() {
    let mut store = TodoStore::new();
    let t = create(&mut store, "once");
    assert!(delete_todo(&mut store, t.id).is_ok());
    let first = delete_todo(&mut store, t.id);
    let second = delete_todo(&mut store, t.id);
    assert!(first.unwrap_err().kind == ErrorKind::NotFound);
    assert!(second.unwrap_err().kind == ErrorKind::NotFound);
}

#[test]
fn created_ids_are_unique_even_after_delete() {
    let mut store = TodoStore::new();
    let a = create(&mut store, "a");
    let b = create(&mut store, "b");
    assert_ne!(a.id, b.id);
    delete_todo(&mut store, a.id).unwrap();
    let c = create(&mut store, "c");
    assert_ne!(c.id, a.id);
    assert_ne!(c.id, b.id);
}

#[test]
fn empty_title_is_accepted_as_valid_text() {
    let mut store = TodoStore::new();
    let t = create(&mut store, "");
    assert_eq!(t.title, "");
    let fetched = get_todo(&store, t.id).unwrap();
    assert_eq!(fetched.title, "");
}

#[test]
fn error_kinds_map_to_their_status_codes() {
    assert_eq!(ApiError::not_found().status_code(), 404);
    assert_eq!(
        ApiError::storage_failure("boom".to_string()).status_code(),
        500
    );
    assert_eq!(ApiError::bad_input("bad".to_string()).status_code(), 400);
}
