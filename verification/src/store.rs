use vstd::prelude::*;

use crate::db::CompleteState;
use crate::db::Todo;
use crate::db::TransientTodo;
use crate::views::TaskView;

verus! {

/// Whether a list filtered by `state` keeps the row `t`.
pub open spec fn keeps(state: CompleteState, t: TaskView) -> bool {
    match state {
        CompleteState::All => true,
        CompleteState::Complete => t.completed,
        CompleteState::Incomplete => !t.completed,
    }
}

/// The views of a sequence of records, row by row.
pub open spec fn views_of(rows: Seq<Todo>) -> Seq<TaskView> {
    rows.map(|i: int, t: Todo| t@)
}

/// The rows a list filtered by `state` returns, in table order.
pub open spec fn filter_tasks(tasks: Seq<TaskView>, state: CompleteState) -> Seq<TaskView> {
    tasks.filter(|t: TaskView| keeps(state, t))
}

/// Whether some row of `tasks` carries the id `id`.
pub open spec fn has_id(tasks: Seq<TaskView>, id: u32) -> bool {
    exists|i: int| 0 <= i < tasks.len() && tasks[i].id == id
}

/// An index of a row carrying `id`; meaningful only when `has_id` holds.
pub open spec fn index_of_id(tasks: Seq<TaskView>, id: u32) -> int {
    choose|i: int| 0 <= i < tasks.len() && tasks[i].id == id
}

/// The row carrying `id`; the unique such row when ids are distinct.
pub open spec fn task_with_id(tasks: Seq<TaskView>, id: u32) -> TaskView {
    tasks[index_of_id(tasks, id)]
}

/// `tasks` after an update with `t`: the row whose id matches `t.id` takes
/// `t`'s name and flag; every other row, and every id, stays as it was.
pub open spec fn apply_update(tasks: Seq<TaskView>, t: TaskView) -> Seq<TaskView> {
    tasks.map(
        |i: int, r: TaskView|
            if r.id == t.id {
                TaskView { id: r.id, name: t.name, completed: t.completed }
            } else {
                r
            },
    )
}

/// No two rows carry the same id.
pub open spec fn ids_distinct(tasks: Seq<TaskView>) -> bool {
    forall|i: int, j: int|
        0 <= i < j < tasks.len() ==> #[trigger] tasks[i].id != #[trigger] tasks[j].id
}

/// The store's invariant: ids are store-assigned, positive, strictly
/// increasing in table order, and all below the next id to be assigned;
/// every stored name is non-empty text.
pub open spec fn valid_state(tasks: Seq<TaskView>, next_id: u32) -> bool {
    &&& next_id >= 1
    &&& forall|i: int| 0 <= i < tasks.len() ==> 1 <= (#[trigger] tasks[i]).id < next_id
    &&& forall|i: int| 0 <= i < tasks.len() ==> (#[trigger] tasks[i]).name.len() >= 1
    &&& forall|i: int, j: int|
        0 <= i < j < tasks.len() ==> #[trigger] tasks[i].id < #[trigger] tasks[j].id
}

/// The task repository: one table of task records with an auto-increment
/// identity, behind the four operations the service consumes. The schema is
/// ensured lazily, once per store-open, and ensuring it again is a no-op.
pub struct Store {
    ready: bool,
    next_id: u32,
    rows: Vec<Todo>,
}

impl Store {
    /// Whether the schema has been ensured on this store.
    pub closed spec fn ready(&self) -> bool {
        self.ready
    }

    /// The id the next successful create will assign.
    pub closed spec fn next_id(&self) -> u32 {
        self.next_id
    }

    /// The persisted rows, in table order.
    pub closed spec fn tasks(&self) -> Seq<TaskView> {
        views_of(self.rows@)
    }

    pub open spec fn wf(&self) -> bool {
        valid_state(self.tasks(), self.next_id())
    }

    /// A store over an empty backing table: nothing persisted, ids start at
    /// 1, the schema not yet ensured.
    pub fn new() -> (s: Store)
        ensures
            s.wf(),
            !s.ready(),
            s.next_id() == 1,
            s.tasks() == Seq::<TaskView>::empty(),
    {
        let s = Store { ready: false, next_id: 1, rows: Vec::new() };
        proof {
            assert(s.tasks() =~= Seq::<TaskView>::empty());
        }
        s
    }

    /// Creates the task table if it is absent, and otherwise does nothing:
    /// ensuring the schema on a store that is already ready leaves the store
    /// exactly as it was, so a second call changes nothing and fails nothing.
    pub fn ensure_schema(&mut self)
        requires
            old(self).wf(),
        ensures
            final(self).wf(),
            final(self).ready(),
            final(self).next_id() == old(self).next_id(),
            final(self).tasks() == old(self).tasks(),
            old(self).ready() ==> *final(self) == *old(self),
    {
        if !self.ready {
            self.ready = true;
        }
    }

    /// Inserts the caller-supplied fields as one new row and returns the
    /// store-assigned id: the next identity value, which no stored row
    /// carries yet. The new row goes at the end of the table order.
    pub fn create(&mut self, todo: &TransientTodo) -> (id: u32)
        requires
            old(self).wf(),
            old(self).ready(),
            old(self).next_id() < u32::MAX,
            todo@.name.len() >= 1,
        ensures
            final(self).wf(),
            final(self).ready(),
            id == old(self).next_id(),
            !has_id(old(self).tasks(), id),
            final(self).next_id() == id + 1,
            final(self).tasks() == old(self).tasks().push(
                TaskView { id, name: todo@.name, completed: todo@.completed },
            ),
    {
        let id = self.next_id;
        self.next_id = self.next_id + 1;
        let row = Todo { id, name: todo.name.clone(), completed: todo.completed };
        self.rows.push(row);
        proof {
            let old_tasks = old(self).tasks();
            let tv = TaskView { id, name: todo@.name, completed: todo@.completed };
            assert(self.tasks() =~= old_tasks.push(tv));
            assert forall|i: int| 0 <= i < old_tasks.len() implies (#[trigger] old_tasks[i]).id
                != id by {
                assert(old_tasks[i].id < id);
            }
        }
        id
    }

    /// Point lookup by id: returns the matching row, or absent (not an
    /// error) when no row carries the id.
    pub fn get(&self, id: u32) -> (r: Option<Todo>)
        requires
            self.wf(),
            self.ready(),
        ensures
            r is Some <==> has_id(self.tasks(), id),
            (r matches Some(t) ==> t@ == task_with_id(self.tasks(), id)),
    {
        let mut i: usize = 0;
        while i < self.rows.len()
            invariant
                self.wf(),
                i <= self.rows@.len(),
                forall|j: int| 0 <= j < i ==> (#[trigger] self.tasks()[j]).id != id,
            decreases self.rows@.len() - i,
        {
            if self.rows[i].id == id {
                let row = &self.rows[i];
                let found = Todo { id: row.id, name: row.name.clone(), completed: row.completed };
                proof {
                    assert(self.tasks()[i as int].id == id);
                    lemma_valid_ids_distinct(self.tasks(), self.next_id());
                    lemma_task_with_id_at(self.tasks(), id, i as int);
                    assert(found@ == self.tasks()[i as int]);
                }
                return Some(found);
            }
            i = i + 1;
        }
        proof {
            assert(forall|j: int|
                0 <= j < self.tasks().len() ==> (#[trigger] self.tasks()[j]).id != id);
        }
        None
    }

    /// Overwrites name and flag for the row matching `todo`'s id, never the
    /// id itself. Returns true when exactly one row was affected and false
    /// when no row matched, in which case the store is left unchanged.
    pub fn update(&mut self, todo: &Todo) -> (r: bool)
        requires
            old(self).wf(),
            old(self).ready(),
            todo@.name.len() >= 1,
        ensures
            final(self).wf(),
            final(self).ready(),
            final(self).next_id() == old(self).next_id(),
            r == has_id(old(self).tasks(), todo@.id),
            final(self).tasks() == apply_update(old(self).tasks(), todo@),
            !r ==> *final(self) == *old(self),
    {
        let mut i: usize = 0;
        while i < self.rows.len()
            invariant
                *self == *old(self),
                self.wf(),
                self.ready(),
                todo@.name.len() >= 1,
                i <= self.rows@.len(),
                forall|j: int| 0 <= j < i ==> (#[trigger] self.tasks()[j]).id != todo@.id,
            decreases self.rows@.len() - i,
        {
            if self.rows[i].id == todo.id {
                proof {
                    assert(self.tasks()[i as int].id == todo@.id);
                }
                let replaced = Todo {
                    id: todo.id,
                    name: todo.name.clone(),
                    completed: todo.completed,
                };
                let ghost before = self.tasks();
                self.rows.set(i, replaced);
                proof {
                    lemma_valid_ids_distinct(before, old(self).next_id());
                    assert forall|j: int| 0 <= j < before.len() && j != i implies (
                    #[trigger] before[j]).id != todo@.id by {
                        if j < i {
                            assert(before[j].id != before[i as int].id);
                        } else {
                            assert(before[i as int].id != before[j].id);
                        }
                    }
                    assert(self.tasks() =~= apply_update(before, todo@));
                    assert(has_id(before, todo@.id));
                }
                return true;
            }
            i = i + 1;
        }
        proof {
            assert(forall|j: int|
                0 <= j < self.tasks().len() ==> (#[trigger] self.tasks()[j]).id != todo@.id);
            assert(apply_update(self.tasks(), todo@) =~= self.tasks());
        }
        false
    }

    /// Returns the rows the filter keeps, in table order: every row for
    /// `All`, the completed ones for `Complete`, the incomplete ones for
    /// `Incomplete`. An empty result is not an error.
    pub fn list(&self, state: CompleteState) -> (r: Vec<Todo>)
        requires
            self.wf(),
            self.ready(),
        ensures
            views_of(r@) == filter_tasks(self.tasks(), state),
    {
        let mut out: Vec<Todo> = Vec::new();
        let mut i: usize = 0;
        while i < self.rows.len()
            invariant
                self.wf(),
                i <= self.rows@.len(),
                views_of(out@) == filter_tasks(self.tasks().take(i as int), state),
            decreases self.rows@.len() - i,
        {
            let keep = match state {
                CompleteState::All => true,
                CompleteState::Complete => self.rows[i].completed,
                CompleteState::Incomplete => !self.rows[i].completed,
            };
            proof {
                reveal(Seq::filter);
                let t = self.tasks();
                assert(t.take(i as int + 1).drop_last() =~= t.take(i as int));
                assert(t.take(i as int + 1).last() == t[i as int]);
                assert(keep == keeps(state, t[i as int]));
            }
            let ghost prior = out@;
            if keep {
                let row = &self.rows[i];
                out.push(Todo { id: row.id, name: row.name.clone(), completed: row.completed });
                proof {
                    assert(views_of(out@) =~= views_of(prior).push(self.tasks()[i as int]));
                }
            }
            i = i + 1;
        }
        proof {
            assert(self.tasks().take(self.rows@.len() as int) =~= self.tasks());
        }
        out
    }
}

/// In a sequence with distinct ids, the row found at a matching index is the
/// row a lookup by that id denotes.
pub proof fn lemma_task_with_id_at(tasks: Seq<TaskView>, id: u32, i: int)
    requires
        ids_distinct(tasks),
        0 <= i < tasks.len(),
        tasks[i].id == id,
    ensures
        has_id(tasks, id),
        index_of_id(tasks, id) == i,
        task_with_id(tasks, id) == tasks[i],
{
    assert(has_id(tasks, id));
    let j = index_of_id(tasks, id);
    assert(0 <= j < tasks.len() && tasks[j].id == id);
    if i < j {
        assert(tasks[i].id != tasks[j].id);
    } else if j < i {
        assert(tasks[j].id != tasks[i].id);
    }
}

/// A store that satisfies the invariant never holds two rows with one id:
/// ids are strictly increasing in table order, so they are pairwise
/// distinct. With create handing out a fresh id each time, any number of
/// creates, in whatever order the store serializes them, yield pairwise
/// distinct ids and lose no row.
pub proof fn lemma_valid_ids_distinct(tasks: Seq<TaskView>, next_id: u32)
    requires
        valid_state(tasks, next_id),
    ensures
        ids_distinct(tasks),
{
}

} // verus!
