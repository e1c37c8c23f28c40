//! The durable task list.
//!
//! `SaveTasks` is the list that the save file holds. The file itself is the
//! caller's business: it reads it and hands what it found to `load`, and it
//! writes the whole list out again after each call here that changed the
//! list.

use vstd::prelude::*;
use crate::records::first_index;
use crate::records::has_id;
use crate::records::is_first_with_id;
use crate::records::lemma_first_index_is;
use crate::records::records;
use crate::records::with_check;
use crate::records::without_first;
use crate::task::TaskCardInfo;
use crate::task::TaskId;
use crate::task::TaskRecord;

verus! {

/// The directory of the application below the user's local data directory.
pub const APP_NAME: &'static str = "TaskApp";

/// The save file's name in that directory.
pub const FILE_NAME: &'static str = "TaskApp.json";

/// What `remove_task` and `check_task` answer where no task carries the
/// identifier.
pub const TASK_NOT_FOUND: &'static str = "Task not found";

/// The task list that is kept in the save file, in the order in which the
/// tasks were added.
#[derive(Debug, PartialEq, Eq)]
pub struct SaveTasks {
    pub tasks: Vec<TaskCardInfo>,
}

/// What the caller found at the save file's place.
#[derive(Debug, PartialEq, Eq)]
pub enum SaveFile {
    /// There is no file.
    Missing,
    /// There is a file, and it does not hold a task list.
    Invalid,
    /// There is a file, and it holds this list.
    Parsed(SaveTasks),
}

/// The list that a start of the application begins with.
pub open spec fn loaded(file: SaveFile) -> Seq<TaskRecord> {
    match file {
        SaveFile::Parsed(saved) => saved@,
        SaveFile::Missing | SaveFile::Invalid => Seq::empty(),
    }
}

impl View for SaveTasks {
    type V = Seq<TaskRecord>;

    open spec fn view(&self) -> Seq<TaskRecord> {
        records(self.tasks@)
    }
}

impl Default for SaveTasks {
    /// The empty list.
    fn default() -> (store: Self)
        ensures
            store@ == Seq::<TaskRecord>::empty(),
    {
        SaveTasks { tasks: Vec::new() }
    }
}

/// The place of the first task in `tasks` that carries `id`, if there is
/// one.
pub fn find_task(tasks: &Vec<TaskCardInfo>, id: TaskId) -> (found: Option<usize>)
    ensures
        match found {
            Some(i) => is_first_with_id(records(tasks@), id, i as int),
            None => !has_id(records(tasks@), id),
        },
{
    let mut i: usize = 0;
    while i < tasks.len()
        invariant
            i <= tasks.len(),
            forall|j: int| 0 <= j < i ==> (#[trigger] records(tasks@)[j]).id != id,
        decreases tasks.len() - i,
    {
        if tasks[i].id == id {
            return Some(i);
        }
        i += 1;
    }
    None
}

impl SaveTasks {
    /// The list to begin with, given what was found at the save file's
    /// place: the file's list where it holds one, the empty list where the
    /// file is missing or cannot be read as a list.
    pub fn load(file: SaveFile) -> (store: Self)
        ensures
            store@ == loaded(file),
    {
        match file {
            SaveFile::Parsed(saved) => saved,
            SaveFile::Missing | SaveFile::Invalid => SaveTasks::default(),
        }
    }

    /// Adds `task` at the end of the list.
    pub fn store(&mut self, task: TaskCardInfo)
        ensures
            final(self)@ == old(self)@.push(task@),
            final(self)@.len() == old(self)@.len() + 1,
    {
        self.tasks.push(task);
    }

    /// Removes the first task that carries `task_id`. Where there is none,
    /// the list stays as it is and the answer is `TASK_NOT_FOUND`.
    pub fn remove_task(&mut self, task_id: TaskId) -> (result: Result<(), &'static str>)
        ensures
            match result {
                Ok(()) => {
                    &&& has_id(old(self)@, task_id)
                    &&& final(self)@ == without_first(old(self)@, task_id)
                    &&& final(self)@.len() == old(self)@.len() - 1
                },
                Err(message) => {
                    &&& !has_id(old(self)@, task_id)
                    &&& final(self)@ == old(self)@
                    &&& message@ == TASK_NOT_FOUND@
                },
            },
    {
        match find_task(&self.tasks, task_id) {
            Some(pos) => {
                proof {
                    lemma_first_index_is(self@, task_id, pos as int);
                }
                self.tasks.remove(pos);
                Ok(())
            },
            None => Err(TASK_NOT_FOUND),
        }
    }

    /// Sets the completion flag of the first task that carries `task_id`
    /// to `check`, and leaves every other task as it is. Where no task
    /// carries `task_id`, the list stays as it is and the answer is
    /// `TASK_NOT_FOUND`.
    pub fn check_task(&mut self, task_id: TaskId, check: bool) -> (result: Result<
        (),
        &'static str,
    >)
        ensures
            final(self)@ == with_check(old(self)@, task_id, check),
            final(self)@.len() == old(self)@.len(),
            match result {
                Ok(()) => {
                    &&& has_id(old(self)@, task_id)
                    &&& final(self)@[first_index(old(self)@, task_id)].check == check
                    &&& forall|j: int|
                        0 <= j < old(self)@.len() && j != first_index(old(self)@, task_id) ==> (
                        #[trigger] final(self)@[j]) == old(self)@[j]
                },
                Err(message) => {
                    &&& !has_id(old(self)@, task_id)
                    &&& final(self)@ == old(self)@
                    &&& message@ == TASK_NOT_FOUND@
                },
            },
    {
        match find_task(&self.tasks, task_id) {
            Some(pos) => {
                proof {
                    lemma_first_index_is(self@, task_id, pos as int);
                }
                self.tasks[pos].check = check;
                Ok(())
            },
            None => Err(TASK_NOT_FOUND),
        }
    }
}

} // verus!
