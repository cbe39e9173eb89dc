use vstd::prelude::*;

use crate::views::NewTaskView;
use crate::views::TaskView;

verus! {

/// A persisted task record with encapsulated fields, as the service hands it
/// out to its callers.
pub struct Todo {
    id: u32,
    name: String,
    completed: bool,
}

impl View for Todo {
    type V = TaskView;

    closed spec fn view(&self) -> TaskView {
        TaskView { id: self.id, name: self.name@, completed: self.completed }
    }
}

impl Todo {
    pub fn new(id: u32, name: &str, completed: bool) -> (t: Todo)
        ensures
            t@ == (TaskView { id, name: name@, completed }),
    {
        Todo { id, name: name.to_owned(), completed }
    }

    pub fn get_id(&self) -> (r: u32)
        ensures
            r == self@.id,
    {
        self.id
    }

    pub fn get_name(&self) -> (r: &str)
        ensures
            r@ == self@.name,
    {
        self.name.as_str()
    }

    pub fn get_completed(&self) -> (r: bool)
        ensures
            r == self@.completed,
    {
        self.completed
    }
}

/// An uncommitted task as a request body carries it: name and flag only,
/// no id until the store assigns one.
pub struct EphemeralTodo {
    name: String,
    completed: bool,
}

impl View for EphemeralTodo {
    type V = NewTaskView;

    closed spec fn view(&self) -> NewTaskView {
        NewTaskView { name: self.name@, completed: self.completed }
    }
}

impl EphemeralTodo {
    pub fn new(name: &str, completed: bool) -> (t: EphemeralTodo)
        ensures
            t@ == (NewTaskView { name: name@, completed }),
    {
        EphemeralTodo { name: name.to_owned(), completed }
    }

    pub fn get_name(&self) -> (r: &str)
        ensures
            r@ == self@.name,
    {
        self.name.as_str()
    }

    pub fn get_completed(&self) -> (r: bool)
        ensures
            r == self@.completed,
    {
        self.completed
    }
}

} // verus!
