use todo_backend::handlers::{
    create_todo, create_todo_with_done, delete_todo_reporting, get_todos, parse_todo_id,
    update_todo_returning, CurrentUserId,
};
use todo_backend::store::TodoStore;
use todo_backend::todo::{ApiError, NewTodo, NewTodoWithDone, UpdateTodoPayload};

fn caller(name: &str) -> CurrentUserId {
    CurrentUserId(name.to_string())
}

#[test]
fn create_with_client_done() {
    let mut store = TodoStore::new();
    let alice = caller("alice");
    let t = create_todo_with_done(
        &mut store,
        &alice,
        NewTodoWithDone { title: "file taxes".to_string(), done: true },
    )
    .ok()
    .unwrap();
    assert!(t.done);
    assert_eq!(t.title, "file taxes");
    let listed = get_todos(&store, &alice);
    assert_eq!(listed.len(), 1);
    assert!(listed[0].done);
    let r = create_todo_with_done(
        &mut store,
        &alice,
        NewTodoWithDone { title: String::new(), done: false },
    );
    assert!(matches!(r, Err(ApiError::BadRequest)));
    assert_eq!(get_todos(&store, &alice).len(), 1);
}

#[test]
fn update_answers_with_the_item() {
    let mut store = TodoStore::new();
    let alice = caller("alice");
    let t = create_todo(&mut store, &alice, NewTodo { title: "read".to_string() }).ok().unwrap();
    let id = t.id.to_hex();
    let back = update_todo_returning(&mut store, &alice, &id, UpdateTodoPayload { done: true })
        .ok()
        .unwrap();
    assert!(back.done);
    assert_eq!(back.title, "read");
    assert_eq!(back.id.to_hex(), id);
    let bob = caller("bob");
    let r = update_todo_returning(&mut store, &bob, &id, UpdateTodoPayload { done: false });
    assert!(matches!(r, Err(ApiError::NotFound)));
    let r = update_todo_returning(&mut store, &alice, "nope", UpdateTodoPayload { done: false });
    assert!(matches!(r, Err(ApiError::BadRequest)));
    let key = parse_todo_id(&id).ok().unwrap();
    assert!(store.get(&"alice".to_string(), &key).unwrap().done);
    assert!(store.get(&"bob".to_string(), &key).is_none());
}

#[test]
fn delete_answers_with_a_flag() {
    let mut store = TodoStore::new();
    let alice = caller("alice");
    let t = create_todo(&mut store, &alice, NewTodo { title: "x".to_string() }).ok().unwrap();
    let id = t.id.to_hex();
    assert!(matches!(delete_todo_reporting(&mut store, &caller("bob"), &id), Ok(false)));
    assert_eq!(get_todos(&store, &alice).len(), 1);
    assert!(matches!(delete_todo_reporting(&mut store, &alice, &id), Ok(true)));
    assert!(get_todos(&store, &alice).is_empty());
    assert!(matches!(delete_todo_reporting(&mut store, &alice, &id), Ok(false)));
    assert!(matches!(delete_todo_reporting(&mut store, &alice, "12"), Err(ApiError::BadRequest)));
}
