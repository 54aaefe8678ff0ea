use todo_core::error::StoreError;
use todo_core::store::{TodoItem, TodoStore};

fn ids(items: &Vec<TodoItem>) -> Vec<usize> {
    items.iter().map(|item| item.id).collect()
}

#[test]
fn new_store_is_empty_and_starts_at_one() {
    let store = TodoStore::new();
    assert_eq!(store.next_id(), 1);
    assert!(store.list_all().is_empty());
}

#[test]
fn create_assigns_one_then_two() {
    let mut store = TodoStore::new();
    let first = store.create("first".to_string()).unwrap();
    let second = store.create("second".to_string()).unwrap();
    assert_eq!(first, TodoItem { id: 1, completed: false, text: "first".to_string() });
    assert_eq!(second, TodoItem { id: 2, completed: false, text: "second".to_string() });
    assert_eq!(store.next_id(), 3);
}

#[test]
fn created_ids_are_distinct_and_positive() {
    let mut store = TodoStore::new();
    let mut seen: Vec<usize> = Vec::new();
    for n in 0..200 {
        let item = store.create(format!("todo {}", n)).unwrap();
        assert!(item.id >= 1);
        assert!(!seen.contains(&item.id));
        seen.push(item.id);
    }
    assert_eq!(seen.len(), 200);
    assert_eq!(store.list_all().len(), 200);
}

#[test]
fn created_ids_grow_with_toggles_in_between() {
    let mut store = TodoStore::new();
    let mut last = 0;
    for round in 0..50 {
        let item = store.create("x".to_string()).unwrap();
        assert!(item.id > last);
        last = item.id;
        store.toggle(1).unwrap();
        if round % 3 == 0 {
            assert_eq!(store.toggle(item.id + 1), Err(StoreError::NotFound(item.id + 1)));
        }
    }
    assert_eq!(last, 50);
}

#[test]
fn toggle_flips_and_keeps_id_and_text() {
    let mut store = TodoStore::new();
    store.create("write".to_string()).unwrap();
    let toggled = store.toggle(1).unwrap();
    assert_eq!(toggled, TodoItem { id: 1, completed: true, text: "write".to_string() });
    assert_eq!(store.list_all(), vec![toggled]);
}

#[test]
fn toggle_twice_restores_completed() {
    let mut store = TodoStore::new();
    let made = store.create("twice".to_string()).unwrap();
    let before = store.list_all();
    let once = store.toggle(made.id).unwrap();
    assert_eq!(once.completed, !made.completed);
    let twice = store.toggle(once.id).unwrap();
    assert_eq!(twice.completed, made.completed);
    assert_eq!(twice, made);
    assert_eq!(store.list_all(), before);
}

#[test]
fn toggle_of_missing_id_fails_and_changes_nothing() {
    let mut store = TodoStore::new();
    store.create("a".to_string()).unwrap();
    store.create("b".to_string()).unwrap();
    store.toggle(2).unwrap();
    let before = store.list_all();
    assert_eq!(store.toggle(3), Err(StoreError::NotFound(3)));
    assert_eq!(store.toggle(0), Err(StoreError::NotFound(0)));
    assert_eq!(store.toggle(usize::MAX), Err(StoreError::NotFound(usize::MAX)));
    assert_eq!(store.list_all(), before);
    assert_eq!(store.next_id(), 3);
}

#[test]
fn toggle_on_empty_store_is_not_found() {
    let mut store = TodoStore::new();
    assert_eq!(store.toggle(1), Err(StoreError::NotFound(1)));
    assert!(store.list_all().is_empty());
}

#[test]
fn list_all_is_sorted_by_id() {
    let mut store = TodoStore::new();
    for n in 0..40 {
        store.create(format!("item {}", n)).unwrap();
    }
    store.toggle(17).unwrap();
    store.toggle(3).unwrap();
    let items = store.list_all();
    let expected: Vec<usize> = (1..=40).collect();
    assert_eq!(ids(&items), expected);
    for item in &items {
        assert_eq!(item.text, format!("item {}", item.id - 1));
        assert_eq!(item.completed, item.id == 17 || item.id == 3);
    }
}

#[test]
fn list_all_leaves_the_store_alone() {
    let mut store = TodoStore::new();
    store.create("only".to_string()).unwrap();
    let first = store.list_all();
    let second = store.list_all();
    assert_eq!(first, second);
    assert_eq!(store.next_id(), 2);
}

#[test]
fn returned_items_are_copies() {
    let mut store = TodoStore::new();
    let mut made = store.create("copy".to_string()).unwrap();
    made.toggle_completed();
    made.text.push_str(" changed");
    assert_eq!(
        store.list_all(),
        vec![TodoItem { id: 1, completed: false, text: "copy".to_string() }]
    );
}

#[test]
fn toggle_completed_flips_only_completed() {
    let mut item = TodoItem { id: 7, completed: false, text: "t".to_string() };
    item.toggle_completed();
    assert_eq!(item, TodoItem { id: 7, completed: true, text: "t".to_string() });
    item.toggle_completed();
    assert_eq!(item, TodoItem { id: 7, completed: false, text: "t".to_string() });
}

#[test]
fn clone_keeps_every_field() {
    let item = TodoItem { id: 12, completed: true, text: "same".to_string() };
    assert_eq!(item.clone(), item);
}

#[test]
fn end_to_end_scenario() {
    let mut store = TodoStore::new();
    let made = store.create("New todo".to_string()).unwrap();
    assert_eq!(made.id, 1);
    assert!(!made.completed);
    assert_eq!(
        store.list_all(),
        vec![TodoItem { id: 1, completed: false, text: "New todo".to_string() }]
    );
    let toggled = store.toggle(1).unwrap();
    assert!(toggled.completed);
    assert_eq!(
        store.list_all(),
        vec![TodoItem { id: 1, completed: true, text: "New todo".to_string() }]
    );
    assert_eq!(store.toggle(99), Err(StoreError::NotFound(99)));
}
