use todo_backend::handlers::{
    create_todo, created_todo, delete_todo, get_todos, match_outcome, mutation_status,
    parse_todo_id, update_todo, CurrentUserId,
};
use todo_backend::object_id::TodoId;
use todo_backend::store::TodoStore;
use todo_backend::todo::{ApiError, MatchResult, NewTodo, UpdateTodoPayload};

fn user(name: &str) -> CurrentUserId {
    CurrentUserId(name.to_string())
}

fn new_todo(title: &str) -> NewTodo {
    NewTodo { title: title.to_string() }
}

#[test]
fn buy_milk_scenario() {
    let mut store = TodoStore::new();
    let alice = user("alice");
    let created = create_todo(&mut store, &alice, new_todo("buy milk")).ok().unwrap();
    assert_eq!(created.title, "buy milk");
    assert!(!created.done);
    let id = created.id.to_hex();
    assert_eq!(id.len(), 24);
    let status = update_todo(&mut store, &alice, &id, UpdateTodoPayload { done: true });
    assert_eq!(status, 200);
    let listed = get_todos(&store, &alice);
    assert_eq!(listed.len(), 1);
    assert_eq!(listed[0].id.to_hex(), id);
    assert_eq!(listed[0].title, "buy milk");
    assert!(listed[0].done);
}

#[test]
fn create_then_list_has_one_item_with_title() {
    let mut store = TodoStore::new();
    let alice = user("alice");
    create_todo(&mut store, &alice, new_todo("walk dog")).ok().unwrap();
    let created = create_todo(&mut store, &alice, new_todo("buy milk")).ok().unwrap();
    let listed = get_todos(&store, &alice);
    assert_eq!(listed.len(), 2);
    let same: Vec<_> = listed.iter().filter(|t| t.title == "buy milk").collect();
    assert_eq!(same.len(), 1);
    assert_eq!(same[0].id.to_hex(), created.id.to_hex());
    assert!(!same[0].id.to_hex().is_empty());
}

#[test]
fn created_items_get_distinct_ids() {
    let mut store = TodoStore::new();
    let alice = user("alice");
    let a = create_todo(&mut store, &alice, new_todo("a")).ok().unwrap();
    let b = create_todo(&mut store, &alice, new_todo("a")).ok().unwrap();
    assert_ne!(a.id.to_hex(), b.id.to_hex());
    assert_eq!(a.id.to_hex(), "000000000000000000000000");
    assert_eq!(b.id.to_hex(), "000000000000000000000001");
}

#[test]
fn empty_title_is_bad_request() {
    let mut store = TodoStore::new();
    let alice = user("alice");
    let r = create_todo(&mut store, &alice, new_todo(""));
    assert!(matches!(r, Err(ApiError::BadRequest)));
    assert!(get_todos(&store, &alice).is_empty());
}

#[test]
fn update_then_read_back() {
    let mut store = TodoStore::new();
    let alice = user("alice");
    let t = create_todo(&mut store, &alice, new_todo("x")).ok().unwrap();
    let id = t.id.to_hex();
    assert_eq!(update_todo(&mut store, &alice, &id, UpdateTodoPayload { done: true }), 200);
    assert!(get_todos(&store, &alice)[0].done);
    assert_eq!(update_todo(&mut store, &alice, &id, UpdateTodoPayload { done: false }), 200);
    assert!(!get_todos(&store, &alice)[0].done);
}

#[test]
fn update_missing_is_not_found_and_changes_nothing() {
    let mut store = TodoStore::new();
    let alice = user("alice");
    create_todo(&mut store, &alice, new_todo("x")).ok().unwrap();
    let missing = "00000000000000000000002a";
    let status = update_todo(&mut store, &alice, missing, UpdateTodoPayload { done: true });
    assert_eq!(status, 404);
    let listed = get_todos(&store, &alice);
    assert_eq!(listed.len(), 1);
    assert!(!listed[0].done);
}

#[test]
fn delete_twice() {
    let mut store = TodoStore::new();
    let alice = user("alice");
    let t = create_todo(&mut store, &alice, new_todo("x")).ok().unwrap();
    let keep = create_todo(&mut store, &alice, new_todo("y")).ok().unwrap();
    let id = t.id.to_hex();
    assert_eq!(delete_todo(&mut store, &alice, &id), 200);
    let listed = get_todos(&store, &alice);
    assert_eq!(listed.len(), 1);
    assert_eq!(listed[0].id.to_hex(), keep.id.to_hex());
    assert_eq!(delete_todo(&mut store, &alice, &id), 404);
}

#[test]
fn other_tenant_cannot_see_or_change() {
    let mut store = TodoStore::new();
    let alice = user("alice");
    let bob = user("bob");
    let t = create_todo(&mut store, &alice, new_todo("secret")).ok().unwrap();
    let id = t.id.to_hex();
    assert!(get_todos(&store, &bob).is_empty());
    assert_eq!(update_todo(&mut store, &bob, &id, UpdateTodoPayload { done: true }), 404);
    assert_eq!(delete_todo(&mut store, &bob, &id), 404);
    let listed = get_todos(&store, &alice);
    assert_eq!(listed.len(), 1);
    assert!(!listed[0].done);
}

#[test]
fn malformed_id_is_bad_request() {
    let mut store = TodoStore::new();
    let alice = user("alice");
    create_todo(&mut store, &alice, new_todo("x")).ok().unwrap();
    for bad in ["", "xyz", "00000000000000000000000", "0000000000000000000000000", "00000000000000000000000g"] {
        assert_eq!(update_todo(&mut store, &alice, bad, UpdateTodoPayload { done: true }), 400);
        assert_eq!(delete_todo(&mut store, &alice, bad), 400);
    }
    let listed = get_todos(&store, &alice);
    assert_eq!(listed.len(), 1);
    assert!(!listed[0].done);
}

#[test]
fn identity_header_rules() {
    assert!(matches!(CurrentUserId::from_header(None), Err(ApiError::Unauthenticated)));
    assert!(matches!(CurrentUserId::from_header(Some("")), Err(ApiError::Unauthenticated)));
    let u = CurrentUserId::from_header(Some("alice")).ok().unwrap();
    assert_eq!(u.0, "alice");
}

#[test]
fn parse_ids() {
    let id = parse_todo_id("0123456789abcdefABCDEF00").ok().unwrap();
    assert_eq!(
        id.bytes,
        [0x01, 0x23, 0x45, 0x67, 0x89, 0xab, 0xcd, 0xef, 0xab, 0xcd, 0xef, 0x00]
    );
    assert_eq!(id.to_hex(), "0123456789abcdefabcdef00");
    assert!(matches!(parse_todo_id("0123"), Err(ApiError::BadRequest)));
    assert!(matches!(parse_todo_id("0123456789abcdefABCDEF0z"), Err(ApiError::BadRequest)));
    assert!(TodoId::parse("65a1b2c3d4e5f60718293a4b").is_some());
    assert!(TodoId::parse("65a1b2c3d4e5f60718293a4\u{e9}").is_none());
}

#[test]
fn id_text_round_trip() {
    let id = TodoId { bytes: [0xff, 0, 0x10, 0x0a, 1, 2, 3, 4, 5, 6, 7, 0x80] };
    let text = id.to_hex();
    assert_eq!(text, "ff00100a0102030405060780");
    let back = TodoId::parse(&text).unwrap();
    assert!(back.same_as(&id));
}

#[test]
fn match_outcomes_and_statuses() {
    assert_eq!(match_outcome(Some(1)), Ok(MatchResult::Updated));
    assert_eq!(match_outcome(Some(0)), Ok(MatchResult::NotFound));
    assert_eq!(match_outcome(Some(2)), Ok(MatchResult::NotFound));
    assert_eq!(match_outcome(None), Err(ApiError::StorageUnavailable));
    assert_eq!(mutation_status(Ok(MatchResult::Updated)), 200);
    assert_eq!(mutation_status(Ok(MatchResult::NotFound)), 404);
    assert_eq!(mutation_status(Err(ApiError::BadRequest)), 400);
    assert_eq!(mutation_status(Err(ApiError::Unauthenticated)), 401);
    assert_eq!(mutation_status(Err(ApiError::NotFound)), 404);
    assert_eq!(mutation_status(Err(ApiError::StorageUnavailable)), 500);
    assert_eq!(ApiError::StorageUnavailable.status(), 500);
}

#[test]
fn created_todo_needs_an_id() {
    let r = created_todo("alice".to_string(), "x".to_string(), None);
    assert!(matches!(r, Err(ApiError::StorageUnavailable)));
    let id = TodoId { bytes: [7; 12] };
    let t = created_todo("alice".to_string(), "x".to_string(), Some(id)).ok().unwrap();
    assert_eq!(t.user_id, "alice");
    assert_eq!(t.title, "x");
    assert!(!t.done);
    assert_eq!(t.id.to_hex(), "070707070707070707070707");
}
