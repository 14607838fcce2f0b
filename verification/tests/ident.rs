use todo_service::error::ErrorKind;
use todo_service::ident::parse_todo_id;

#[test]
fn parse_accepts_hyphenated_uuid() {
    let id = parse_todo_id("00000000-0000-0000-0000-000000000001").unwrap();
    assert_eq!(id, 1u128);
}

#[test]
fn parse_agrees_with_uuid_crate() {
    let text = "550e8400-e29b-41d4-a716-446655440000";
    let expected = uuid::Uuid::parse_str(text).unwrap().as_u128();
    assert_eq!(parse_todo_id(text).unwrap(), expected);
}

#[test]
fn parse_rejects_malformed_id_as_client_error() {
    let err = parse_todo_id("not-a-uuid").unwrap_err();
    assert!(err.kind == ErrorKind::BadInput);
    assert_eq!(err.status_code(), 400);
}
