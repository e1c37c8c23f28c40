//! The three events of the window: a task is added, removed, or checked
//! off.
//!
//! Each handler takes the store, the list that the window shows (`None`
//! once the window is gone) and what the event carries. It changes the
//! store and answers with an `Outcome`: the list to show next, whether the
//! store has to be written to the save file, and what to log. The caller
//! does the showing, the writing and the logging.
//!
//! Every handler looks for the window first. Once the window is gone it
//! skips the event as a whole: the store stays as it is and nothing is
//! shown or saved.
//!
//! The shown list and the store are changed each in its own way: removing
//! takes one task out of the store and every task with that identifier out
//! of the shown list. The two lists stay equal as long as the identifiers
//! are distinct.

use vstd::prelude::*;
use crate::model::add_task_to_model;
use crate::model::check_task_in_model;
use crate::model::remove_task_from_model;
use crate::records::appended;
use crate::records::has_id;
use crate::records::ids_unique;
use crate::records::count_id;
use crate::records::first_index;
use crate::records::lemma_appended;
use crate::records::lemma_appended_fresh_id;
use crate::records::lemma_remove_with_unique_ids;
use crate::records::lemma_with_check;
use crate::records::lemma_with_check_keeps_ids;
use crate::records::lemma_without_absent_id;
use crate::records::lemma_without_first;
use crate::records::lemma_without_id;
use crate::records::records;
use crate::records::with_check;
use crate::records::without_first;
use crate::records::without_id;
use crate::store::loaded;
use crate::store::SaveFile;
use crate::store::SaveTasks;
use crate::task::TaskCardInfo;
use crate::task::TaskId;
use crate::task::TaskRecord;

verus! {

/// Something that went wrong without stopping the application.
#[derive(Debug, PartialEq, Eq)]
pub enum Notice {
    /// The store holds no task with this identifier to remove.
    RemoveFailed(TaskId),
    /// The store holds no task with this identifier to check off.
    CheckFailed(TaskId),
    /// The window is gone, so the event was dropped.
    WindowGone,
}

/// What the caller has to do after an event.
#[derive(Debug, PartialEq, Eq)]
pub struct Outcome {
    /// The list to show from now on, if the shown list is to be replaced.
    pub model: Option<Vec<TaskCardInfo>>,
    /// Whether the store has to be written to the save file.
    pub save: bool,
    /// What to log, if anything.
    pub notice: Option<Notice>,
}

impl Outcome {
    /// The records of the list to show next, if there is one.
    pub open spec fn shown(&self) -> Option<Seq<TaskRecord>> {
        match self.model {
            Some(model) => Some(records(model@)),
            None => None,
        }
    }
}

/// The records of the list that the window shows, if there is a window.
pub open spec fn shown_now(view: Option<&Vec<TaskCardInfo>>) -> Option<Seq<TaskRecord>> {
    match view {
        Some(model) => Some(records(model@)),
        None => None,
    }
}

/// An event of the window, as contracts speak of it.
pub enum Event {
    /// A task with this title is to be added under this identifier.
    AddTask { title: Seq<char>, id: TaskId },
    /// The tasks with this identifier are to go.
    RemoveTask { id: TaskId },
    /// The task with this identifier was checked off (`check`), or the
    /// mark was taken back.
    CheckTask { id: TaskId, check: bool },
}

/// What an event does: the store's list afterwards, the list to show next
/// (`None`: the shown list is not replaced), whether the store is to be
/// saved, and what is to be logged.
pub struct Effect {
    pub store: Seq<TaskRecord>,
    pub shown: Option<Seq<TaskRecord>>,
    pub save: bool,
    pub notice: Option<Notice>,
}

/// What `event` does to a store that holds `store`, while the window
/// shows `shown` (`None`: the window is gone).
///
/// When the window is gone, every event is skipped: the store stays as it
/// is, and nothing is shown or saved. Adding is then skipped in silence;
/// removing and checking are logged as `Notice::WindowGone`.
///
/// With the window there, adding with an empty title does nothing, and
/// adding otherwise puts the new task, not done yet, at the end of both
/// lists. Removing takes the first task under the identifier out of the
/// store and every such task out of the shown list, and checking sets the
/// flag of the first task under the identifier in both lists; where the
/// store holds no such task it stays as it is and the failure is to be
/// logged. The store is to be saved exactly when a task was added to it,
/// removed from it or checked in it.
pub open spec fn effect(store: Seq<TaskRecord>, shown: Option<Seq<TaskRecord>>, event: Event)
    -> Effect {
    match event {
        Event::AddTask { title, id } => {
            match shown {
                Some(list) => {
                    if title.len() == 0 {
                        Effect { store, shown: None, save: false, notice: None }
                    } else {
                        Effect {
                            store: appended(store, id, title),
                            shown: Some(appended(list, id, title)),
                            save: true,
                            notice: None,
                        }
                    }
                },
                None => Effect { store, shown: None, save: false, notice: None },
            }
        },
        Event::RemoveTask { id } => {
            match shown {
                Some(list) => Effect {
                    store: without_first(store, id),
                    shown: Some(without_id(list, id)),
                    save: has_id(store, id),
                    notice: if has_id(store, id) {
                        None
                    } else {
                        Some(Notice::RemoveFailed(id))
                    },
                },
                None => Effect {
                    store,
                    shown: None,
                    save: false,
                    notice: Some(Notice::WindowGone),
                },
            }
        },
        Event::CheckTask { id, check } => {
            match shown {
                Some(list) => Effect {
                    store: with_check(store, id, check),
                    shown: Some(with_check(list, id, check)),
                    save: has_id(store, id),
                    notice: if has_id(store, id) {
                        None
                    } else {
                        Some(Notice::CheckFailed(id))
                    },
                },
                None => Effect {
                    store,
                    shown: None,
                    save: false,
                    notice: Some(Notice::WindowGone),
                },
            }
        },
    }
}

/// The list that the window shows once the caller has done what an effect
/// asks.
pub open spec fn shown_after(shown: Option<Seq<TaskRecord>>, done: Effect) -> Option<
    Seq<TaskRecord>,
> {
    match (shown, done.shown) {
        (Some(_), Some(next)) => Some(next),
        _ => shown,
    }
}

/// What the save file holds once the caller has done what an effect asks:
/// the store's list where a save was asked for, and what it held before
/// where none was.
pub open spec fn file_after(file: Seq<TaskRecord>, done: Effect) -> Seq<TaskRecord> {
    if done.save {
        done.store
    } else {
        file
    }
}

/// Whether a task with this title would be added: there is a window, and
/// the title is not empty. Only then does the caller have to draw an
/// identifier for the task.
pub fn add_is_accepted(view: Option<&Vec<TaskCardInfo>>, title: &str) -> (accepted: bool)
    ensures
        accepted == (shown_now(view) is Some && title@.len() > 0),
{
    match view {
        Some(_) => !title.is_empty(),
        None => false,
    }
}

/// A task titled `title` is to be added under the identifier `id`, which
/// the caller has drawn for it.
///
/// Without a window the event is skipped, and so is an empty title:
/// nothing changes and nothing is to be done. Otherwise the new task, not
/// done yet, goes to the end of the store and of the shown list, and the
/// store is to be saved.
pub fn on_add_task(
    store: &mut SaveTasks,
    view: Option<&Vec<TaskCardInfo>>,
    title: &str,
    id: TaskId,
) -> (outcome: Outcome)
    ensures
        ({
            let done = effect(
                old(store)@,
                shown_now(view),
                Event::AddTask { title: title@, id },
            );
            &&& final(store)@ == done.store
            &&& outcome.shown() == done.shown
            &&& outcome.save == done.save
            &&& outcome.notice == done.notice
        }),
        outcome.save == (shown_now(view) is Some && title@.len() > 0),
        !outcome.save ==> final(store)@ == old(store)@ && outcome.model is None,
        final(store)@.len() == old(store)@.len() + if outcome.save {
            1int
        } else {
            0int
        },
{
    if !add_is_accepted(view, title) {
        return Outcome { model: None, save: false, notice: None };
    }
    let model = match view {
        Some(shown) => Some(add_task_to_model(shown, TaskCardInfo::new(id, title))),
        None => None,
    };
    store.store(TaskCardInfo::new(id, title));
    Outcome { model, save: true, notice: None }
}

/// The task `task` of the shown list is to be removed.
///
/// Without a window the event is dropped and `Notice::WindowGone` is to be
/// logged. Otherwise the first task with the identifier of `task` leaves
/// the store, which is then to be saved; where the store holds none, it
/// stays as it is and `Notice::RemoveFailed` is to be logged. Either way
/// the shown list loses every task with that identifier.
pub fn on_remove_task(
    store: &mut SaveTasks,
    view: Option<&Vec<TaskCardInfo>>,
    task: &TaskCardInfo,
) -> (outcome: Outcome)
    ensures
        ({
            let done = effect(old(store)@, shown_now(view), Event::RemoveTask { id: task.id });
            &&& final(store)@ == done.store
            &&& outcome.shown() == done.shown
            &&& outcome.save == done.save
            &&& outcome.notice == done.notice
        }),
        final(store)@.len() == old(store)@.len() - if outcome.save {
            1int
        } else {
            0int
        },
{
    let shown = match view {
        Some(shown) => shown,
        None => {
            return Outcome { model: None, save: false, notice: Some(Notice::WindowGone) };
        },
    };
    proof {
        if !has_id(store@, task.id) {
            lemma_without_absent_id(store@, task.id);
        }
    }
    let removed = store.remove_task(task.id);
    let model = remove_task_from_model(shown, task);
    match removed {
        Ok(()) => Outcome { model: Some(model), save: true, notice: None },
        Err(_) => Outcome {
            model: Some(model),
            save: false,
            notice: Some(Notice::RemoveFailed(task.id)),
        },
    }
}

/// The task `task` of the shown list was checked off, or the mark was
/// taken back: `task` carries the new completion flag.
///
/// Without a window the event is dropped and `Notice::WindowGone` is to be
/// logged. Otherwise the first task with the identifier of `task` gets the
/// flag of `task`, in the store and in the shown list, and no other task
/// changes. The store is then to be saved; where it holds no such task, it
/// stays as it is and `Notice::CheckFailed` is to be logged.
pub fn on_check_task(
    store: &mut SaveTasks,
    view: Option<&Vec<TaskCardInfo>>,
    task: &TaskCardInfo,
) -> (outcome: Outcome)
    ensures
        ({
            let done = effect(
                old(store)@,
                shown_now(view),
                Event::CheckTask { id: task.id, check: task.check },
            );
            &&& final(store)@ == done.store
            &&& outcome.shown() == done.shown
            &&& outcome.save == done.save
            &&& outcome.notice == done.notice
        }),
        final(store)@.len() == old(store)@.len(),
{
    let shown = match view {
        Some(shown) => shown,
        None => {
            return Outcome { model: None, save: false, notice: Some(Notice::WindowGone) };
        },
    };
    let checked = store.check_task(task.id, task.check);
    let model = check_task_in_model(shown, task);
    match checked {
        Ok(()) => Outcome { model: Some(model), save: true, notice: None },
        Err(_) => Outcome {
            model: Some(model),
            save: false,
            notice: Some(Notice::CheckFailed(task.id)),
        },
    }
}

/// Once the window is gone, no event does anything: the store keeps its
/// list, and nothing is shown or saved. A dropped removal or check is
/// logged as such, a dropped addition is not.
pub proof fn lemma_window_gone_skips_event(store: Seq<TaskRecord>, event: Event)
    ensures
        ({
            let done = effect(store, None, event);
            &&& done.store == store
            &&& done.shown is None
            &&& !done.save
            &&& file_after(store, done) == store
            &&& done.notice == match event {
                Event::AddTask { .. } => None,
                Event::RemoveTask { .. } | Event::CheckTask { .. } => Some(Notice::WindowGone),
            }
        }),
{
}

/// While the window is there, adding a task with a title makes the store
/// and the shown list one longer each. The new task stands last in both,
/// is not done, and carries the title and the identifier that was drawn;
/// the tasks before it are the old ones. The store is to be saved. If the
/// identifier is not in the store yet, the store's identifiers stay
/// distinct.
pub proof fn lemma_add_appends_one(
    store: Seq<TaskRecord>,
    shown: Seq<TaskRecord>,
    title: Seq<char>,
    id: TaskId,
)
    requires
        title.len() > 0,
    ensures
        ({
            let done = effect(store, Some(shown), Event::AddTask { title, id });
            let task = TaskRecord { id, text: title, check: false };
            &&& done.store.len() == store.len() + 1
            &&& done.store.last() == task
            &&& done.store.drop_last() == store
            &&& done.shown is Some
            &&& done.shown.unwrap().len() == shown.len() + 1
            &&& done.shown.unwrap().last() == task
            &&& done.shown.unwrap().drop_last() == shown
            &&& done.save
            &&& done.notice is None
            &&& has_id(done.store, id)
            &&& ids_unique(store) && !has_id(store, id) ==> ids_unique(done.store)
        }),
{
    lemma_appended(store, id, title);
    lemma_appended(shown, id, title);
    if ids_unique(store) && !has_id(store, id) {
        lemma_appended_fresh_id(store, id, title);
    }
}

/// Adding a task with an empty title is rejected: the store keeps its
/// list, the shown list is not replaced, and nothing is saved or logged.
pub proof fn lemma_add_rejects_empty_title(
    store: Seq<TaskRecord>,
    shown: Option<Seq<TaskRecord>>,
    id: TaskId,
)
    ensures
        ({
            let done = effect(store, shown, Event::AddTask { title: Seq::empty(), id });
            &&& done.store == store
            &&& shown_after(shown, done) == shown
            &&& !done.save
            &&& done.notice is None
        }),
{
}

/// Removing a task whose identifier the store holds makes the store one
/// shorter and takes one task with that identifier out of it; the store
/// is to be saved. The shown list holds no task with that identifier
/// afterwards. Where the store's identifiers are distinct, the identifier
/// is gone from the store too.
pub proof fn lemma_remove_present(store: Seq<TaskRecord>, shown: Seq<TaskRecord>, id: TaskId)
    requires
        has_id(store, id),
    ensures
        ({
            let done = effect(store, Some(shown), Event::RemoveTask { id });
            &&& done.store.len() == store.len() - 1
            &&& count_id(done.store, id) == count_id(store, id) - 1
            &&& done.save
            &&& done.notice is None
            &&& done.shown is Some
            &&& !has_id(done.shown.unwrap(), id)
            &&& done.shown.unwrap().len() + count_id(shown, id) == shown.len()
            &&& ids_unique(store) ==> !has_id(done.store, id)
        }),
{
    lemma_without_first(store, id);
    lemma_without_id(shown, id);
    if ids_unique(store) {
        lemma_remove_with_unique_ids(store, id);
    }
}

/// Removing a task whose identifier the store does not hold leaves the
/// store as it is, asks for no save, and is logged as a failure.
pub proof fn lemma_remove_absent(store: Seq<TaskRecord>, shown: Seq<TaskRecord>, id: TaskId)
    requires
        !has_id(store, id),
    ensures
        ({
            let done = effect(store, Some(shown), Event::RemoveTask { id });
            &&& done.store == store
            &&& !done.save
            &&& done.notice == Some(Notice::RemoveFailed(id))
        }),
{
    lemma_without_absent_id(store, id);
}

/// Checking a task whose identifier the store holds changes the first
/// task under that identifier and no other: that task keeps its
/// identifier and its text and has the new flag, every other task is as
/// it was, and the store keeps its length. The store is to be saved.
pub proof fn lemma_check_changes_one_task(
    store: Seq<TaskRecord>,
    shown: Seq<TaskRecord>,
    id: TaskId,
    check: bool,
)
    requires
        has_id(store, id),
    ensures
        ({
            let done = effect(store, Some(shown), Event::CheckTask { id, check });
            let i = first_index(store, id);
            &&& done.store.len() == store.len()
            &&& 0 <= i < store.len()
            &&& done.store[i] == (TaskRecord { id, text: store[i].text, check })
            &&& forall|j: int| 0 <= j < store.len() && j != i ==> #[trigger] done.store[j] == store[j]
            &&& done.save
            &&& done.notice is None
        }),
{
    lemma_with_check(store, id, check);
}

/// No event changes the store without asking for a save. So if the save
/// file held the store's list before an event, and the caller has written
/// the store out where the event asked for it, then a fresh start that
/// loads the file begins with the list that the store had last.
pub proof fn lemma_restart_sees_last_state(
    store: Seq<TaskRecord>,
    shown: Option<Seq<TaskRecord>>,
    event: Event,
    file: SaveTasks,
)
    requires
        file@ == file_after(store, effect(store, shown, event)),
    ensures
        !effect(store, shown, event).save ==> effect(store, shown, event).store == store,
        loaded(SaveFile::Parsed(file)) == effect(store, shown, event).store,
{
    match event {
        Event::AddTask { title, id } => {},
        Event::RemoveTask { id } => {
            if !has_id(store, id) {
                lemma_without_absent_id(store, id);
            }
        },
        Event::CheckTask { id, check } => {
            if !has_id(store, id) {
                lemma_without_absent_id(store, id);
            }
        },
    }
}

/// While the identifiers are distinct, the window shows what the store
/// holds: if the two lists are equal before an event, they are equal
/// after it.
pub proof fn lemma_shown_list_follows_store(store: Seq<TaskRecord>, event: Event)
    requires
        ids_unique(store),
    ensures
        shown_after(Some(store), effect(store, Some(store), event)) == Some(
            effect(store, Some(store), event).store,
        ),
{
    match event {
        Event::AddTask { title, id } => {},
        Event::RemoveTask { id } => {
            if has_id(store, id) {
                lemma_remove_with_unique_ids(store, id);
            } else {
                lemma_without_absent_id(store, id);
            }
        },
        Event::CheckTask { id, check } => {},
    }
}

/// Removing and checking keep the store's identifiers distinct, and so
/// does adding under an identifier that the store does not hold yet.
pub proof fn lemma_ids_stay_unique(
    store: Seq<TaskRecord>,
    shown: Option<Seq<TaskRecord>>,
    event: Event,
)
    requires
        ids_unique(store),
        event matches Event::AddTask { title, id } ==> !has_id(store, id),
    ensures
        ids_unique(effect(store, shown, event).store),
{
    match event {
        Event::AddTask { title, id } => {
            if title.len() > 0 {
                lemma_appended_fresh_id(store, id, title);
            }
        },
        Event::RemoveTask { id } => {
            if has_id(store, id) {
                lemma_remove_with_unique_ids(store, id);
            }
        },
        Event::CheckTask { id, check } => {
            lemma_with_check_keeps_ids(store, id, check, id);
        },
    }
}

} // verus!
