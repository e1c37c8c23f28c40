//! One entry of the to-do list.

use vstd::prelude::*;

verus! {

/// The identifier of a task. The application draws it at random when the
/// task is created, so two tasks can share one by accident.
pub type TaskId = u32;

/// What one task is, as contracts speak of it.
pub struct TaskRecord {
    pub id: TaskId,
    pub text: Seq<char>,
    pub check: bool,
}

/// One task as it is held in memory: identifier, label and completion flag.
#[derive(Debug, PartialEq, Eq)]
pub struct TaskCardInfo {
    pub id: TaskId,
    pub text: String,
    pub check: bool,
}

impl View for TaskCardInfo {
    type V = TaskRecord;

    open spec fn view(&self) -> TaskRecord {
        TaskRecord { id: self.id, text: self.text@, check: self.check }
    }
}

impl Clone for TaskCardInfo {
    fn clone(&self) -> (copy: Self)
        ensures
            copy@ == self@,
    {
        TaskCardInfo { id: self.id, text: self.text.clone(), check: self.check }
    }
}

impl TaskCardInfo {
    /// A task that is not done yet, as the add event creates it.
    pub fn new(id: TaskId, text: &str) -> (task: Self)
        ensures
            task@ == (TaskRecord { id, text: text@, check: false }),
    {
        TaskCardInfo { id, text: text.to_owned(), check: false }
    }
}

} // verus!
