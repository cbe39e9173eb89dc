use vstd::prelude::*;

verus! {

/// Mathematical image of one persisted task row: the store-assigned id, the
/// characters of the name, and the completion flag.
pub struct TaskView {
    pub id: u32,
    pub name: Seq<char>,
    pub completed: bool,
}

/// Mathematical image of an uncommitted task: the caller-supplied fields,
/// with no id assigned yet.
pub struct NewTaskView {
    pub name: Seq<char>,
    pub completed: bool,
}

} // verus!
