use todos::db::CompleteState;
use todos::db::TransientTodo;
use todos::store::Store;

fn transient(name: &str, completed: bool) -> TransientTodo {
    TransientTodo { name: name.to_owned(), completed }
}

fn ids(store: &Store, state: CompleteState) -> Vec<u32> {
    store.list(state).iter().map(|t| t.id).collect()
}

#[test]
fn schema_ensure_is_idempotent() {
    let mut store = Store::new();
    store.ensure_schema();
    let id = store.create(&transient("A", false));
    let before: Vec<u32> = ids(&store, CompleteState::All);
    store.ensure_schema();
    let after: Vec<u32> = ids(&store, CompleteState::All);
    assert_eq!(before, after);
    let row = store.get(id).expect("row survives a second schema ensure");
    assert_eq!(row.id, id);
    assert_eq!(row.name, "A");
}

#[test]
fn create_then_get_returns_the_created_row() {
    let mut store = Store::new();
    store.ensure_schema();
    let id = store.create(&transient("A", false));
    let row = store.get(id).expect("created row is found");
    assert_eq!(row.id, id);
    assert_eq!(row.name, "A");
    assert!(!row.completed);
}

#[test]
fn get_of_an_id_never_created_is_absent() {
    let mut store = Store::new();
    store.ensure_schema();
    assert!(store.get(999).is_none());
    store.create(&transient("A", false));
    assert!(store.get(999).is_none());
}

#[test]
fn get_on_an_empty_store_is_absent() {
    let mut store = Store::new();
    store.ensure_schema();
    assert!(store.get(1).is_none());
}

#[test]
fn update_of_a_missing_id_returns_false_and_changes_nothing() {
    let mut store = Store::new();
    store.ensure_schema();
    let id = store.create(&transient("A", false));
    let before: Vec<u32> = ids(&store, CompleteState::All);
    let row = todos::db::Todo { id: id + 100, name: "B".to_owned(), completed: true };
    assert!(!store.update(&row));
    let after: Vec<u32> = ids(&store, CompleteState::All);
    assert_eq!(before, after);
    let kept = store.get(id).expect("existing row untouched");
    assert_eq!(kept.name, "A");
    assert!(!kept.completed);
}

#[test]
fn update_of_an_existing_id_overwrites_name_and_flag() {
    let mut store = Store::new();
    store.ensure_schema();
    let id = store.create(&transient("A", false));
    let row = todos::db::Todo { id, name: "B".to_owned(), completed: true };
    assert!(store.update(&row));
    let got = store.get(id).expect("updated row is found");
    assert_eq!(got.id, id);
    assert_eq!(got.name, "B");
    assert!(got.completed);
}

#[test]
fn update_twice_last_write_wins() {
    let mut store = Store::new();
    store.ensure_schema();
    let id = store.create(&transient("A", false));
    assert!(store.update(&todos::db::Todo { id, name: "B".to_owned(), completed: true }));
    assert!(store.update(&todos::db::Todo { id, name: "C".to_owned(), completed: false }));
    let got = store.get(id).expect("row is found");
    assert_eq!(got.name, "C");
    assert!(!got.completed);
}

#[test]
fn list_filters_split_the_table_by_the_completed_flag() {
    let mut store = Store::new();
    store.ensure_schema();
    let a = store.create(&transient("first", true));
    let b = store.create(&transient("second", false));
    let c = store.create(&transient("third", true));

    let complete = ids(&store, CompleteState::Complete);
    let incomplete = ids(&store, CompleteState::Incomplete);
    let all = ids(&store, CompleteState::All);

    assert_eq!(complete, vec![a, c]);
    assert_eq!(incomplete, vec![b]);
    assert_eq!(all, vec![a, b, c]);

    let mut union: Vec<u32> = complete.clone();
    union.extend(incomplete.iter().copied());
    union.sort();
    let mut all_sorted = all.clone();
    all_sorted.sort();
    assert_eq!(union, all_sorted);
}

#[test]
fn list_on_an_empty_store_is_empty_not_an_error() {
    let mut store = Store::new();
    store.ensure_schema();
    assert!(store.list(CompleteState::All).is_empty());
    assert!(store.list(CompleteState::Complete).is_empty());
    assert!(store.list(CompleteState::Incomplete).is_empty());
}

#[test]
fn many_creates_yield_distinct_ids_and_lose_no_row() {
    let mut store = Store::new();
    store.ensure_schema();
    let n: u32 = 50;
    let mut seen: Vec<u32> = Vec::new();
    for k in 0..n {
        let id = store.create(&transient(&format!("task {}", k), k % 2 == 0));
        assert!(!seen.contains(&id), "create handed out a duplicate id");
        seen.push(id);
    }
    let all = store.list(CompleteState::All);
    assert_eq!(all.len(), n as usize);
    let listed: Vec<u32> = all.iter().map(|t| t.id).collect();
    assert_eq!(listed, seen);
}

#[test]
fn created_rows_keep_table_order() {
    let mut store = Store::new();
    store.ensure_schema();
    let a = store.create(&transient("A", false));
    let b = store.create(&transient("B", false));
    assert!(a < b);
    assert_eq!(ids(&store, CompleteState::All), vec![a, b]);
}
