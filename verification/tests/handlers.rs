use todo_core::error::{MyError, StoreError};
use todo_core::handlers::{create_todo, index, toggle_todo};
use todo_core::render::{render_item, render_list};
use todo_core::store::{TodoItem, TodoStore};

#[test]
fn index_of_new_store_is_the_empty_page() {
    let store = TodoStore::new();
    assert_eq!(index(&store), render_list(&Vec::new()));
}

#[test]
fn index_lists_items_by_id() {
    let mut store = TodoStore::new();
    store.create("a".to_string()).unwrap();
    store.create("b".to_string()).unwrap();
    store.toggle(1).unwrap();
    let expected = render_list(&vec![
        TodoItem { id: 1, completed: true, text: "a".to_string() },
        TodoItem { id: 2, completed: false, text: "b".to_string() },
    ]);
    assert_eq!(index(&store), expected);
    assert_eq!(index(&store), render_list(&store.list_all()));
}

#[test]
fn create_todo_returns_the_new_fragment() {
    let mut store = TodoStore::new();
    let first = create_todo(&mut store).unwrap();
    assert_eq!(
        first,
        "<li id=\"todo-item-1\" hx-put=\"/todos/1\" style=\";\" hx-swap=\"outerHTML\">New todo</li>"
    );
    let second = create_todo(&mut store).unwrap();
    assert_eq!(
        second,
        "<li id=\"todo-item-2\" hx-put=\"/todos/2\" style=\";background-color: darkgrey\" hx-swap=\"outerHTML\">New todo</li>"
    );
    assert_eq!(
        store.list_all(),
        vec![
            TodoItem { id: 1, completed: false, text: "New todo".to_string() },
            TodoItem { id: 2, completed: false, text: "New todo".to_string() },
        ]
    );
}

#[test]
fn toggle_todo_returns_the_updated_fragment() {
    let mut store = TodoStore::new();
    create_todo(&mut store).unwrap();
    let html = toggle_todo(&mut store, 1).unwrap();
    assert_eq!(
        html,
        "<li id=\"todo-item-1\" hx-put=\"/todos/1\" style=\"text-decoration: line-through;\" hx-swap=\"outerHTML\">New todo</li>"
    );
    assert_eq!(html, render_item(&store.list_all()[0]));
    let back = toggle_todo(&mut store, 1).unwrap();
    assert_eq!(
        back,
        "<li id=\"todo-item-1\" hx-put=\"/todos/1\" style=\";\" hx-swap=\"outerHTML\">New todo</li>"
    );
}

#[test]
fn toggle_todo_of_missing_id_is_not_found() {
    let mut store = TodoStore::new();
    create_todo(&mut store).unwrap();
    let before = index(&store);
    let err = toggle_todo(&mut store, 99).unwrap_err();
    assert_eq!(err, MyError { err: StoreError::NotFound(99) });
    assert_eq!(err.status_code(), 404);
    assert_eq!(index(&store), before);
}

#[test]
fn not_found_message_and_status() {
    let err = MyError::from(StoreError::NotFound(12));
    assert_eq!(err.err, StoreError::NotFound(12));
    assert_eq!(err.message(), "todo 12 not found");
    assert_eq!(err.status_code(), 404);
}

#[test]
fn exhausted_message_and_status() {
    let err = MyError::from(StoreError::IdSpaceExhausted);
    assert_eq!(err.err, StoreError::IdSpaceExhausted);
    assert_eq!(err.message(), "todo id space exhausted");
    assert_eq!(err.status_code(), 500);
}

#[test]
fn from_keeps_the_cause() {
    let err: MyError = StoreError::NotFound(0).into();
    assert_eq!(err, MyError { err: StoreError::NotFound(0) });
    assert_ne!(err, MyError { err: StoreError::IdSpaceExhausted });
}
