use taskapp::events::add_is_accepted;
use taskapp::events::on_add_task;
use taskapp::events::on_check_task;
use taskapp::events::on_remove_task;
use taskapp::events::Notice;
use taskapp::events::Outcome;
use taskapp::model::initialize_task_list;
use taskapp::store::SaveTasks;
use taskapp::task::TaskCardInfo;

fn rec(id: u32, text: &str, check: bool) -> TaskCardInfo {
    TaskCardInfo { id, text: text.to_string(), check }
}

fn three() -> Vec<TaskCardInfo> {
    vec![rec(10, "milk", false), rec(20, "bread", true), rec(30, "eggs", false)]
}

fn dropped() -> Outcome {
    Outcome { model: None, save: false, notice: Some(Notice::WindowGone) }
}

#[test]
fn add_grows_store_and_shown_list_by_one() {
    let mut store = SaveTasks { tasks: three() };
    let out = on_add_task(&mut store, Some(&three()), "tea", 40);
    let mut expected = three();
    expected.push(rec(40, "tea", false));
    assert_eq!(store.tasks, expected);
    assert_eq!(out, Outcome { model: Some(expected), save: true, notice: None });
}

#[test]
fn add_to_empty_lists() {
    let mut store = SaveTasks::default();
    let out = on_add_task(&mut store, Some(&Vec::new()), "x", 0);
    assert_eq!(store.tasks, vec![rec(0, "x", false)]);
    assert_eq!(out.model, Some(vec![rec(0, "x", false)]));
    assert!(out.save);
}

#[test]
fn add_rejects_empty_title() {
    let mut store = SaveTasks { tasks: three() };
    let out = on_add_task(&mut store, Some(&three()), "", 40);
    assert_eq!(store.tasks, three());
    assert_eq!(out, Outcome { model: None, save: false, notice: None });
}

#[test]
fn add_accepts_a_blank_title() {
    let mut store = SaveTasks::default();
    let out = on_add_task(&mut store, Some(&Vec::new()), " ", 1);
    assert_eq!(store.tasks, vec![rec(1, " ", false)]);
    assert!(out.save);
}

#[test]
fn add_without_window_is_skipped() {
    let mut store = SaveTasks { tasks: three() };
    let out = on_add_task(&mut store, None, "tea", 40);
    assert_eq!(store.tasks, three());
    assert_eq!(out, Outcome { model: None, save: false, notice: None });
}

#[test]
fn add_without_window_and_without_title_is_skipped() {
    let mut store = SaveTasks::default();
    let out = on_add_task(&mut store, None, "", 40);
    assert_eq!(store, SaveTasks::default());
    assert_eq!(out, Outcome { model: None, save: false, notice: None });
}

#[test]
fn add_is_accepted_with_window_and_title_only() {
    let shown = three();
    assert!(add_is_accepted(Some(&shown), "tea"));
    assert!(add_is_accepted(Some(&Vec::new()), " "));
    assert!(!add_is_accepted(Some(&shown), ""));
    assert!(!add_is_accepted(None, "tea"));
    assert!(!add_is_accepted(None, ""));
}

#[test]
fn add_under_an_id_that_is_taken_keeps_both_tasks() {
    let mut store = SaveTasks { tasks: three() };
    let out = on_add_task(&mut store, Some(&three()), "again", 20);
    assert_eq!(store.tasks.len(), 4);
    assert_eq!(store.tasks[1], rec(20, "bread", true));
    assert_eq!(store.tasks[3], rec(20, "again", false));
    assert_eq!(out.model.map(|m| m.len()), Some(4));
}

#[test]
fn add_follows_the_shown_list_not_the_store() {
    let mut store = SaveTasks::default();
    let out = on_add_task(&mut store, Some(&three()), "tea", 40);
    assert_eq!(store.tasks, vec![rec(40, "tea", false)]);
    assert_eq!(out.model.map(|m| m.len()), Some(4));
}

#[test]
fn remove_present_id() {
    let mut store = SaveTasks { tasks: three() };
    let out = on_remove_task(&mut store, Some(&three()), &rec(20, "bread", true));
    let expected = vec![rec(10, "milk", false), rec(30, "eggs", false)];
    assert_eq!(store.tasks, expected);
    assert_eq!(out, Outcome { model: Some(expected), save: true, notice: None });
}

#[test]
fn remove_absent_id_is_logged_and_changes_nothing() {
    let mut store = SaveTasks { tasks: three() };
    let out = on_remove_task(&mut store, Some(&three()), &rec(99, "ghost", false));
    assert_eq!(store.tasks, three());
    assert_eq!(
        out,
        Outcome { model: Some(three()), save: false, notice: Some(Notice::RemoveFailed(99)) }
    );
}

#[test]
fn remove_updates_the_shown_list_even_if_the_store_lacks_the_id() {
    let mut store = SaveTasks { tasks: vec![rec(10, "milk", false)] };
    let out = on_remove_task(&mut store, Some(&three()), &rec(20, "bread", true));
    assert_eq!(store.tasks, vec![rec(10, "milk", false)]);
    assert_eq!(out.model, Some(vec![rec(10, "milk", false), rec(30, "eggs", false)]));
    assert!(!out.save);
    assert_eq!(out.notice, Some(Notice::RemoveFailed(20)));
}

#[test]
fn remove_with_equal_ids_lets_the_lists_part() {
    let twice = vec![rec(1, "a", false), rec(1, "b", false), rec(2, "c", false)];
    let mut store = SaveTasks { tasks: twice.clone() };
    let out = on_remove_task(&mut store, Some(&twice), &rec(1, "a", false));
    assert_eq!(store.tasks, vec![rec(1, "b", false), rec(2, "c", false)]);
    assert_eq!(out.model, Some(vec![rec(2, "c", false)]));
    assert!(out.save);
}

#[test]
fn remove_without_window_is_dropped() {
    let mut store = SaveTasks { tasks: three() };
    let out = on_remove_task(&mut store, None, &rec(20, "bread", true));
    assert_eq!(store.tasks, three());
    assert_eq!(out, dropped());
}

#[test]
fn check_sets_the_flag_in_both_lists() {
    let mut store = SaveTasks { tasks: three() };
    let out = on_check_task(&mut store, Some(&three()), &rec(10, "milk", true));
    let expected = vec![rec(10, "milk", true), rec(20, "bread", true), rec(30, "eggs", false)];
    assert_eq!(store.tasks, expected);
    assert_eq!(out, Outcome { model: Some(expected), save: true, notice: None });
}

#[test]
fn check_takes_the_flag_back() {
    let mut store = SaveTasks { tasks: three() };
    let out = on_check_task(&mut store, Some(&three()), &rec(20, "bread", false));
    assert_eq!(store.tasks[1], rec(20, "bread", false));
    assert_eq!(store.tasks[0], rec(10, "milk", false));
    assert_eq!(store.tasks[2], rec(30, "eggs", false));
    assert!(out.save);
}

#[test]
fn check_keeps_the_stored_text() {
    let mut store = SaveTasks { tasks: three() };
    let out = on_check_task(&mut store, Some(&three()), &rec(30, "another text", true));
    assert_eq!(store.tasks[2], rec(30, "eggs", true));
    assert_eq!(out.model.map(|m| m[2].clone()), Some(rec(30, "eggs", true)));
}

#[test]
fn check_with_the_value_it_has_is_saved_all_the_same() {
    let mut store = SaveTasks { tasks: three() };
    let out = on_check_task(&mut store, Some(&three()), &rec(20, "bread", true));
    assert_eq!(store.tasks, three());
    assert_eq!(out, Outcome { model: Some(three()), save: true, notice: None });
}

#[test]
fn check_absent_id_is_logged_and_changes_nothing() {
    let mut store = SaveTasks { tasks: three() };
    let out = on_check_task(&mut store, Some(&three()), &rec(99, "ghost", true));
    assert_eq!(store.tasks, three());
    assert_eq!(
        out,
        Outcome { model: Some(three()), save: false, notice: Some(Notice::CheckFailed(99)) }
    );
}

#[test]
fn check_without_window_is_dropped() {
    let mut store = SaveTasks { tasks: three() };
    let out = on_check_task(&mut store, None, &rec(10, "milk", true));
    assert_eq!(store.tasks, three());
    assert_eq!(out, dropped());
}

#[test]
fn shown_list_follows_the_store_through_a_session() {
    let mut store = SaveTasks::default();
    let mut shown = initialize_task_list(&store);
    let titles = ["one", "two", "three", "four"];
    for (n, title) in titles.iter().enumerate() {
        let out = on_add_task(&mut store, Some(&shown), title, n as u32 + 1);
        shown = out.model.unwrap();
        assert_eq!(shown, store.tasks);
    }
    let out = on_check_task(&mut store, Some(&shown), &rec(2, "two", true));
    shown = out.model.unwrap();
    assert_eq!(shown, store.tasks);
    let out = on_remove_task(&mut store, Some(&shown), &rec(1, "one", false));
    shown = out.model.unwrap();
    assert_eq!(shown, store.tasks);
    let out = on_remove_task(&mut store, Some(&shown), &rec(1, "one", false));
    assert_eq!(out.notice, Some(Notice::RemoveFailed(1)));
    shown = out.model.unwrap();
    assert_eq!(shown, store.tasks);
    assert_eq!(
        store.tasks,
        vec![rec(2, "two", true), rec(3, "three", false), rec(4, "four", false)]
    );
}

#[test]
fn many_adds_with_distinct_ids_keep_them_distinct() {
    let mut store = SaveTasks::default();
    let mut shown: Vec<TaskCardInfo> = Vec::new();
    for id in 0..200u32 {
        let out = on_add_task(&mut store, Some(&shown), "task", id * 7919);
        shown = out.model.unwrap();
    }
    assert_eq!(store.tasks.len(), 200);
    for (n, t) in store.tasks.iter().enumerate() {
        assert_eq!(t.id, n as u32 * 7919);
        assert!(!t.check);
        assert_eq!(store.tasks.iter().filter(|o| o.id == t.id).count(), 1);
    }
    assert_eq!(shown, store.tasks);
}

#[test]
fn ten_thousand_adds_with_distinct_ids() {
    let mut store = SaveTasks::default();
    for n in 0..10_000u32 {
        let out = on_add_task(
            &mut store,
            Some(&Vec::new()),
            "task",
            n.wrapping_mul(2_654_435_761),
        );
        assert!(out.save);
        assert_eq!(out.model.map(|m| m.len()), Some(1));
        assert_eq!(store.tasks.len(), n as usize + 1);
    }
    let mut ids: Vec<u32> = store.tasks.iter().map(|t| t.id).collect();
    ids.sort();
    ids.dedup();
    assert_eq!(ids.len(), 10_000);
    assert!(store.tasks.iter().all(|t| !t.check && t.text == "task"));
}
