use todos::db;
use todos::db::CompleteState;
use todos::model::EphemeralTodo;
use todos::model::Todo;

#[test]
fn select_query_matches_each_filter() {
    assert_eq!(
        db::select_query(CompleteState::All),
        "SELECT id, name, completed FROM todo"
    );
    assert_eq!(
        db::select_query(CompleteState::Complete),
        "SELECT id, name, completed FROM todo WHERE completed <> 0"
    );
    assert_eq!(
        db::select_query(CompleteState::Incomplete),
        "SELECT id, name, completed FROM todo WHERE completed = 0"
    );
}

#[test]
fn fixed_query_texts_are_exact() {
    assert_eq!(
        db::count_table_query(),
        "SELECT count(*) FROM sqlite_master WHERE type='table' AND name='todo'"
    );
    assert_eq!(
        db::create_table_query(),
        "CREATE TABLE todo (id INTEGER PRIMARY KEY AUTOINCREMENT, name TEXT NOT NULL, completed INT DEFAULT 0)"
    );
    assert_eq!(db::insert_query(), "INSERT INTO todo(name, completed) VALUES (?, ?)");
    assert_eq!(db::last_row_id_query(), "SELECT last_insert_rowid()");
    assert_eq!(
        db::select_todo_query(),
        "SELECT id, name, completed FROM todo WHERE id = ? LIMIT 1"
    );
    assert_eq!(db::update_query(), "UPDATE todo SET name = ?, completed = ? WHERE id = ?");
}

#[test]
fn needs_initialize_only_when_the_table_is_absent() {
    assert!(db::needs_initialize(0));
    assert!(!db::needs_initialize(1));
    assert!(!db::needs_initialize(7));
}

#[test]
fn from_row_reads_nonzero_completed_as_true() {
    let t = db::Todo::from_row(3, "walk".to_owned(), 1);
    assert_eq!(t.id, 3);
    assert_eq!(t.name, "walk");
    assert!(t.completed);

    let u = db::Todo::from_row(4, "shop".to_owned(), 0);
    assert!(!u.completed);

    let v = db::Todo::from_row(5, "read".to_owned(), 42);
    assert!(v.completed);
}

#[test]
fn transient_from_todo_keeps_name_and_flag() {
    let t = db::Todo { id: 9, name: "call".to_owned(), completed: true };
    let e = db::TransientTodo::from_todo(&t);
    assert_eq!(e.name, "call");
    assert!(e.completed);
}

#[test]
fn model_todo_accessors_return_the_constructed_fields() {
    let t = Todo::new(7, "water plants", true);
    assert_eq!(t.get_id(), 7);
    assert_eq!(t.get_name(), "water plants");
    assert!(t.get_completed());
}

#[test]
fn ephemeral_todo_accessors_return_the_constructed_fields() {
    let e = EphemeralTodo::new("buy milk", false);
    assert_eq!(e.get_name(), "buy milk");
    assert!(!e.get_completed());
}
