use vstd::prelude::*;

use vstd::seq_lib::to_multiset_build;
use vstd::seq_lib::to_multiset_insert;

use crate::db::CompleteState;
use crate::store::apply_update;
use crate::store::filter_tasks;
use crate::store::has_id;
use crate::store::ids_distinct;
use crate::store::index_of_id;
use crate::store::lemma_task_with_id_at;
use crate::store::task_with_id;
use crate::views::TaskView;

verus! {

/// Identity: a create appends a row carrying a fresh id, so an immediately
/// following get for that id finds exactly the row that was created.
pub proof fn lemma_create_then_get(tasks: Seq<TaskView>, tv: TaskView)
    requires
        !has_id(tasks, tv.id),
    ensures
        has_id(tasks.push(tv), tv.id),
        task_with_id(tasks.push(tv), tv.id) == tv,
{
    let s = tasks.push(tv);
    assert(s[tasks.len() as int] == tv);
    assert(has_id(s, tv.id));
    let j = index_of_id(s, tv.id);
    assert(0 <= j < s.len() && s[j].id == tv.id);
    if j < tasks.len() {
        assert(tasks[j].id == tv.id);
        assert(false);
    }
}

/// Update success: after an update for an id the store holds, a get for
/// that id returns exactly the updated fields, and every row with another
/// id is untouched.
pub proof fn lemma_update_then_get(tasks: Seq<TaskView>, tv: TaskView)
    requires
        ids_distinct(tasks),
        has_id(tasks, tv.id),
    ensures
        has_id(apply_update(tasks, tv), tv.id),
        task_with_id(apply_update(tasks, tv), tv.id) == tv,
        forall|i: int|
            0 <= i < tasks.len() && tasks[i].id != tv.id ==> apply_update(tasks, tv)[i]
                == tasks[i],
{
    let s = apply_update(tasks, tv);
    let i = index_of_id(tasks, tv.id);
    assert(0 <= i < tasks.len() && tasks[i].id == tv.id);
    assert(s[i] == tv);
    assert(forall|k: int| 0 <= k < s.len() ==> (#[trigger] s[k]).id == tasks[k].id);
    assert(ids_distinct(s));
    lemma_task_with_id_at(s, tv.id, i);
}

/// Filter correctness, the unfiltered case: listing with `All` returns
/// every row, in table order.
pub proof fn lemma_list_all(tasks: Seq<TaskView>)
    ensures
        filter_tasks(tasks, CompleteState::All) == tasks,
    decreases tasks.len(),
{
    reveal(Seq::filter);
    if tasks.len() == 0 {
        assert(filter_tasks(tasks, CompleteState::All) =~= tasks);
    } else {
        lemma_list_all(tasks.drop_last());
        assert(filter_tasks(tasks, CompleteState::All) == filter_tasks(
            tasks.drop_last(),
            CompleteState::All,
        ).push(tasks.last()));
        assert(tasks.drop_last().push(tasks.last()) =~= tasks);
    }
}

/// Filter correctness, the partition: the completed and the incomplete
/// listings together hold exactly the rows of the full listing, each row
/// once.
pub proof fn lemma_list_partition(tasks: Seq<TaskView>)
    ensures
        (filter_tasks(tasks, CompleteState::Complete) + filter_tasks(
            tasks,
            CompleteState::Incomplete,
        )).to_multiset() == filter_tasks(tasks, CompleteState::All).to_multiset(),
    decreases tasks.len(),
{
    reveal(Seq::filter);
    lemma_list_all(tasks);
    let c = filter_tasks(tasks, CompleteState::Complete);
    let ic = filter_tasks(tasks, CompleteState::Incomplete);
    if tasks.len() == 0 {
        assert(c + ic =~= tasks);
    } else {
        let prev = tasks.drop_last();
        let a = tasks.last();
        lemma_list_partition(prev);
        lemma_list_all(prev);
        let pc = filter_tasks(prev, CompleteState::Complete);
        let pic = filter_tasks(prev, CompleteState::Incomplete);
        to_multiset_build(prev, a);
        assert(prev.push(a) =~= tasks);
        if a.completed {
            assert(c == pc.push(a));
            assert(ic == pic);
            assert(c + ic =~= (pc + pic).insert(pc.len() as int, a));
            to_multiset_insert(pc + pic, pc.len() as int, a);
        } else {
            assert(c == pc);
            assert(ic == pic.push(a));
            assert(c + ic =~= (pc + pic).insert((pc + pic).len() as int, a));
            to_multiset_insert(pc + pic, (pc + pic).len() as int, a);
        }
    }
}

} // verus!
