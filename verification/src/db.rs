use vstd::prelude::*;

use crate::views::NewTaskView;
use crate::views::TaskView;

verus! {

/// A persisted task record: the store-assigned id plus the caller-visible
/// fields. The id is assigned on creation and never changes.
pub struct Todo {
    pub id: u32,
    pub name: String,
    pub completed: bool,
}

impl View for Todo {
    type V = TaskView;

    open spec fn view(&self) -> TaskView {
        TaskView { id: self.id, name: self.name@, completed: self.completed }
    }
}

impl Todo {
    /// Maps one row of the task table, handed over as plain column values,
    /// to a record; a nonzero `completed` column means true.
    pub fn from_row(id: u32, name: String, completed: u32) -> (t: Todo)
        ensures
            t@.id == id,
            t@.name == name@,
            t@.completed == (completed != 0),
    {
        Todo { id, name, completed: completed != 0u32 }
    }
}

/// An uncommitted task: the caller supplies name and flag, the store assigns
/// the id on create.
pub struct TransientTodo {
    pub name: String,
    pub completed: bool,
}

impl View for TransientTodo {
    type V = NewTaskView;

    open spec fn view(&self) -> NewTaskView {
        NewTaskView { name: self.name@, completed: self.completed }
    }
}

impl TransientTodo {
    /// Forgets the id of a persisted record, keeping the caller-visible fields.
    pub fn from_todo(todo: &Todo) -> (t: TransientTodo)
        ensures
            t@.name == todo@.name,
            t@.completed == todo@.completed,
    {
        TransientTodo { name: todo.name.clone(), completed: todo.completed }
    }
}

/// Which tasks a list operation returns: every row, only the completed ones,
/// or only the incomplete ones.
#[derive(Clone, Copy)]
pub enum CompleteState {
    All,
    Complete,
    Incomplete,
}

/// The text of the read query that a given filter calls for.
pub open spec fn select_query_text(state: CompleteState) -> Seq<char> {
    match state {
        CompleteState::All => "SELECT id, name, completed FROM todo"@,
        CompleteState::Complete => "SELECT id, name, completed FROM todo WHERE completed <> 0"@,
        CompleteState::Incomplete => "SELECT id, name, completed FROM todo WHERE completed = 0"@,
    }
}

/// Picks the read query matching the filter: no predicate for `All`, a
/// nonzero test for `Complete`, a zero test for `Incomplete`.
pub fn select_query(state: CompleteState) -> (q: &'static str)
    ensures
        q@ == select_query_text(state),
{
    match state {
        CompleteState::All => "SELECT id, name, completed FROM todo",
        CompleteState::Incomplete => "SELECT id, name, completed FROM todo WHERE completed = 0",
        CompleteState::Complete => "SELECT id, name, completed FROM todo WHERE completed <> 0",
    }
}

/// The catalog query counting how many tables carry the task table's name.
pub fn count_table_query() -> (q: &'static str)
    ensures
        q@ == "SELECT count(*) FROM sqlite_master WHERE type='table' AND name='todo'"@,
{
    "SELECT count(*) FROM sqlite_master WHERE type='table' AND name='todo'"
}

/// The statement creating the task table: an auto-incrementing integer
/// primary key, a required text name, and a completed flag defaulting to 0.
pub fn create_table_query() -> (q: &'static str)
    ensures
        q@
            == "CREATE TABLE todo (id INTEGER PRIMARY KEY AUTOINCREMENT, name TEXT NOT NULL, completed INT DEFAULT 0)"@,
{
    "CREATE TABLE todo (id INTEGER PRIMARY KEY AUTOINCREMENT, name TEXT NOT NULL, completed INT DEFAULT 0)"
}

/// The statement inserting one row, with name and completed as parameters.
pub fn insert_query() -> (q: &'static str)
    ensures
        q@ == "INSERT INTO todo(name, completed) VALUES (?, ?)"@,
{
    "INSERT INTO todo(name, completed) VALUES (?, ?)"
}

/// The query reading the id that the last insert on this connection assigned.
pub fn last_row_id_query() -> (q: &'static str)
    ensures
        q@ == "SELECT last_insert_rowid()"@,
{
    "SELECT last_insert_rowid()"
}

/// The point lookup for one row by id, returning at most one row.
pub fn select_todo_query() -> (q: &'static str)
    ensures
        q@ == "SELECT id, name, completed FROM todo WHERE id = ? LIMIT 1"@,
{
    "SELECT id, name, completed FROM todo WHERE id = ? LIMIT 1"
}

/// The statement overwriting name and completed for the row matching an id.
pub fn update_query() -> (q: &'static str)
    ensures
        q@ == "UPDATE todo SET name = ?, completed = ? WHERE id = ?"@,
{
    "UPDATE todo SET name = ?, completed = ? WHERE id = ?"
}

/// Whether the task table still has to be created, given how many tables of
/// its name the catalog holds.
pub fn needs_initialize(count: u32) -> (b: bool)
    ensures
        b == (count == 0),
{
    count == 0
}

} // verus!
