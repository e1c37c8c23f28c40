//! The list that the window shows.
//!
//! The window is given a whole new list whenever something changes: each
//! function here takes the list that is shown and returns the list to
//! show next. None of them changes its argument.

use vstd::prelude::*;
use crate::records::has_id;
use crate::records::lemma_first_index_is;
use crate::records::lemma_without_absent_id;
use crate::records::lemma_without_id;
use crate::records::records;
use crate::records::with_check;
use crate::records::without_id;
use crate::store::find_task;
use crate::store::SaveTasks;
use crate::task::TaskCardInfo;
use crate::task::TaskRecord;

verus! {

/// A copy of `tasks`: the same records in the same order.
pub fn copy_tasks(tasks: &Vec<TaskCardInfo>) -> (copy: Vec<TaskCardInfo>)
    ensures
        records(copy@) == records(tasks@),
{
    let mut copy: Vec<TaskCardInfo> = Vec::new();
    let mut i: usize = 0;
    while i < tasks.len()
        invariant
            i <= tasks.len(),
            records(copy@) == records(tasks@).take(i as int),
        decreases tasks.len() - i,
    {
        let task = tasks[i].clone();
        assert(records(copy@.push(task)) == records(copy@).push(task@));
        copy.push(task);
        i += 1;
    }
    assert(records(tasks@).take(i as int) == records(tasks@));
    copy
}

/// The list to show when the application starts: the tasks of the store,
/// in the store's order.
pub fn initialize_task_list(store: &SaveTasks) -> (model: Vec<TaskCardInfo>)
    ensures
        records(model@) == store@,
{
    copy_tasks(&store.tasks)
}

/// The shown list with `task` added at its end.
pub fn add_task_to_model(model: &Vec<TaskCardInfo>, task: TaskCardInfo) -> (next: Vec<
    TaskCardInfo,
>)
    ensures
        records(next@) == records(model@).push(task@),
        next@.len() == model@.len() + 1,
{
    let mut next = copy_tasks(model);
    assert(next@.len() == records(next@).len());
    next.push(task);
    next
}

/// The shown list without the tasks that carry the identifier of `task`.
/// The others stay in their order.
pub fn remove_task_from_model(model: &Vec<TaskCardInfo>, task: &TaskCardInfo) -> (next: Vec<
    TaskCardInfo,
>)
    ensures
        records(next@) == without_id(records(model@), task.id),
        !has_id(records(next@), task.id),
        next@.len() <= model@.len(),
        !has_id(records(model@), task.id) ==> records(next@) == records(model@),
{
    let ghost keep = |r: TaskRecord| r.id != task.id;
    let mut next: Vec<TaskCardInfo> = Vec::new();
    let mut i: usize = 0;
    proof {
        reveal_with_fuel(Seq::filter, 1);
    }
    while i < model.len()
        invariant
            i <= model.len(),
            keep == |r: TaskRecord| r.id != task.id,
            records(next@) == records(model@).take(i as int).filter(keep),
        decreases model.len() - i,
    {
        proof {
            let before = records(model@).take(i as int);
            assert(records(model@).take(i + 1) == before.push(model@[i as int]@));
            before.lemma_filter_push(model@[i as int]@, keep);
        }
        if model[i].id != task.id {
            next.push(model[i].clone());
        }
        i += 1;
    }
    proof {
        assert(records(model@).take(i as int) == records(model@));
        lemma_without_id(records(model@), task.id);
        assert(next@.len() == records(next@).len());
        if !has_id(records(model@), task.id) {
            lemma_without_absent_id(records(model@), task.id);
        }
    }
    next
}

/// The shown list with the completion flag of `task` taken over: the
/// first task that carries the identifier of `task` gets its flag, and
/// every other task stays as it is.
pub fn check_task_in_model(model: &Vec<TaskCardInfo>, task: &TaskCardInfo) -> (next: Vec<
    TaskCardInfo,
>)
    ensures
        records(next@) == with_check(records(model@), task.id, task.check),
        next@.len() == model@.len(),
{
    let mut next = copy_tasks(model);
    assert(next@.len() == records(next@).len());
    match find_task(&next, task.id) {
        Some(pos) => {
            proof {
                lemma_first_index_is(records(next@), task.id, pos as int);
            }
            next[pos].check = task.check;
        },
        None => {},
    }
    next
}

} // verus!
