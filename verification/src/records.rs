//! Sequences of task records: what the list operations mean, and what
//! follows from that.
//!
//! The executable lists elsewhere in the crate are described by the
//! sequences of their records. The functions here say what it means to add
//! a task, to remove one and to set its completion flag; the proof
//! functions state what these operations keep and what they change.

use vstd::prelude::*;
use crate::task::TaskCardInfo;
use crate::task::TaskId;
use crate::task::TaskRecord;

verus! {

/// The records of a list of tasks, in the list's order.
pub open spec fn records(tasks: Seq<TaskCardInfo>) -> Seq<TaskRecord> {
    tasks.map_values(|t: TaskCardInfo| t@)
}

/// Some record of `s` carries `id`.
pub open spec fn has_id(s: Seq<TaskRecord>, id: TaskId) -> bool {
    exists|i: int| 0 <= i < s.len() && (#[trigger] s[i]).id == id
}

/// `i` is the place of the first record of `s` that carries `id`.
pub open spec fn is_first_with_id(s: Seq<TaskRecord>, id: TaskId, i: int) -> bool {
    &&& 0 <= i < s.len()
    &&& s[i].id == id
    &&& forall|j: int| 0 <= j < i ==> (#[trigger] s[j]).id != id
}

/// The place of the first record of `s` that carries `id`. It means
/// something only where `has_id(s, id)` holds.
pub open spec fn first_index(s: Seq<TaskRecord>, id: TaskId) -> int {
    choose|i: int| is_first_with_id(s, id, i)
}

/// How many records of `s` carry `id`.
pub open spec fn count_id(s: Seq<TaskRecord>, id: TaskId) -> nat {
    s.filter(|r: TaskRecord| r.id == id).len()
}

/// No identifier occurs twice in `s`.
pub open spec fn ids_unique(s: Seq<TaskRecord>) -> bool {
    forall|i: int, j: int| 0 <= i < j < s.len() ==> (#[trigger] s[i]).id != (#[trigger] s[j]).id
}

/// `s` with a new task at its end, not done yet.
pub open spec fn appended(s: Seq<TaskRecord>, id: TaskId, text: Seq<char>) -> Seq<TaskRecord> {
    s.push(TaskRecord { id, text, check: false })
}

/// `s` without the first record that carries `id`; `s` itself where none
/// does.
pub open spec fn without_first(s: Seq<TaskRecord>, id: TaskId) -> Seq<TaskRecord> {
    if has_id(s, id) {
        s.remove(first_index(s, id))
    } else {
        s
    }
}

/// `s` without every record that carries `id`.
pub open spec fn without_id(s: Seq<TaskRecord>, id: TaskId) -> Seq<TaskRecord> {
    s.filter(|r: TaskRecord| r.id != id)
}

/// `s` with the completion flag of the first record that carries `id` set
/// to `check`; `s` itself where none does.
pub open spec fn with_check(s: Seq<TaskRecord>, id: TaskId, check: bool) -> Seq<TaskRecord> {
    if has_id(s, id) {
        let i = first_index(s, id);
        s.update(i, TaskRecord { id: s[i].id, text: s[i].text, check })
    } else {
        s
    }
}

/// A record that carries `id` at place `k` has a first such record at or
/// before `k`.
proof fn lemma_first_exists(s: Seq<TaskRecord>, id: TaskId, k: int) -> (i: int)
    requires
        0 <= k < s.len(),
        s[k].id == id,
    ensures
        is_first_with_id(s, id, i),
        i <= k,
    decreases k,
{
    if exists|j: int| 0 <= j < k && (#[trigger] s[j]).id == id {
        let j = choose|j: int| 0 <= j < k && (#[trigger] s[j]).id == id;
        lemma_first_exists(s, id, j)
    } else {
        k
    }
}

/// There is one first place at most: whichever place is the first is
/// `first_index`.
pub proof fn lemma_first_index_is(s: Seq<TaskRecord>, id: TaskId, i: int)
    requires
        is_first_with_id(s, id, i),
    ensures
        has_id(s, id),
        first_index(s, id) == i,
{
    let f = first_index(s, id);
    assert(is_first_with_id(s, id, f));
    if f < i {
        assert(s[f].id != id);
    } else if i < f {
        assert(s[i].id != id);
    }
}

/// Where `id` occurs, `first_index` is the place of its first occurrence.
pub proof fn lemma_first_index_of_present(s: Seq<TaskRecord>, id: TaskId)
    requires
        has_id(s, id),
    ensures
        is_first_with_id(s, id, first_index(s, id)),
{
    let k = choose|k: int| 0 <= k < s.len() && (#[trigger] s[k]).id == id;
    let i = lemma_first_exists(s, id, k);
    lemma_first_index_is(s, id, i);
}

/// Removing or checking under an identifier that does not occur changes
/// nothing.
pub proof fn lemma_without_absent_id(s: Seq<TaskRecord>, id: TaskId)
    requires
        !has_id(s, id),
    ensures
        without_id(s, id) == s,
        without_first(s, id) == s,
        with_check(s, id, true) == s,
        with_check(s, id, false) == s,
        count_id(s, id) == 0,
    decreases s.len(),
{
    let keep = |r: TaskRecord| r.id != id;
    let hit = |r: TaskRecord| r.id == id;
    if s.len() == 0 {
        reveal_with_fuel(Seq::filter, 1);
        assert(s.filter(keep) == s);
        assert(s.filter(hit).len() == 0);
    } else {
        let t = s.drop_last();
        assert(s.last() == s[s.len() - 1]);
        assert(s.last().id != id);
        assert(!has_id(t, id)) by {
            if has_id(t, id) {
                let j = choose|j: int| 0 <= j < t.len() && (#[trigger] t[j]).id == id;
                assert(s[j].id == id);
            }
        }
        lemma_without_absent_id(t, id);
        assert(t.push(s.last()) == s);
        t.lemma_filter_push(s.last(), keep);
        t.lemma_filter_push(s.last(), hit);
    }
}

/// Adding a task makes the list one longer: the new record stands last,
/// is not done and carries the given identifier and text, and the records
/// before it are those of the old list.
pub proof fn lemma_appended(s: Seq<TaskRecord>, id: TaskId, text: Seq<char>)
    ensures
        appended(s, id, text).len() == s.len() + 1,
        appended(s, id, text).last() == (TaskRecord { id, text, check: false }),
        appended(s, id, text).drop_last() == s,
        has_id(appended(s, id, text), id),
{
    let a = appended(s, id, text);
    assert(a[s.len() as int].id == id);
}

/// Adding a task under an identifier that the list does not hold yet
/// keeps the identifiers distinct.
pub proof fn lemma_appended_fresh_id(s: Seq<TaskRecord>, id: TaskId, text: Seq<char>)
    requires
        ids_unique(s),
        !has_id(s, id),
    ensures
        ids_unique(appended(s, id, text)),
        count_id(appended(s, id, text), id) == 1,
{
    let a = appended(s, id, text);
    assert forall|i: int, j: int| 0 <= i < j < a.len() implies (#[trigger] a[i]).id != (
    #[trigger] a[j]).id by {
        assert(a[i] == s[i]);
        if j < s.len() {
            assert(a[j] == s[j]);
        }
    }
    lemma_without_absent_id(s, id);
    s.lemma_filter_push(TaskRecord { id, text, check: false }, |r: TaskRecord| r.id == id);
}

/// Removing the first record under an identifier that the list holds
/// makes the list one shorter and takes one occurrence of the identifier
/// away; the other records stay, in their order.
pub proof fn lemma_without_first(s: Seq<TaskRecord>, id: TaskId)
    requires
        has_id(s, id),
    ensures
        without_first(s, id).len() == s.len() - 1,
        count_id(without_first(s, id), id) == count_id(s, id) - 1,
        forall|j: int|
            0 <= j < first_index(s, id) ==> (#[trigger] without_first(s, id)[j]) == s[j],
        forall|j: int|
            first_index(s, id) <= j < s.len() - 1 ==> (#[trigger] without_first(s, id)[j]) == s[j
                + 1],
{
    lemma_first_index_of_present(s, id);
    let i = first_index(s, id);
    s.remove_ensures(i);
    lemma_count_split(s, id, i);
}

/// Taking the record at place `i` out of `s` takes one occurrence of `id`
/// away where that record carries `id`, and none where it does not.
proof fn lemma_count_split(s: Seq<TaskRecord>, id: TaskId, i: int)
    requires
        0 <= i < s.len(),
    ensures
        count_id(s, id) == count_id(s.remove(i), id) + if s[i].id == id {
            1int
        } else {
            0int
        },
    decreases s.len(),
{
    let hit = |r: TaskRecord| r.id == id;
    let t = s.drop_last();
    assert(t.push(s.last()) == s);
    t.lemma_filter_push(s.last(), hit);
    if i == s.len() - 1 {
        assert(s.remove(i) == t);
    } else {
        lemma_count_split(t, id, i);
        assert(t.remove(i).push(s.last()) == s.remove(i));
        t.remove(i).lemma_filter_push(s.last(), hit);
    }
}

/// After every record under an identifier is taken out, the identifier is
/// gone, and the list is shorter by the number of its occurrences.
pub proof fn lemma_without_id(s: Seq<TaskRecord>, id: TaskId)
    ensures
        !has_id(without_id(s, id), id),
        without_id(s, id).len() + count_id(s, id) == s.len(),
    decreases s.len(),
{
    let keep = |r: TaskRecord| r.id != id;
    let hit = |r: TaskRecord| r.id == id;
    let w = without_id(s, id);
    assert(!has_id(w, id)) by {
        if has_id(w, id) {
            let j = choose|j: int| 0 <= j < w.len() && (#[trigger] w[j]).id == id;
            s.lemma_filter_pred(keep, j);
        }
    }
    if s.len() == 0 {
        reveal_with_fuel(Seq::filter, 1);
    } else {
        let t = s.drop_last();
        lemma_without_id(t, id);
        assert(t.push(s.last()) == s);
        t.lemma_filter_push(s.last(), keep);
        t.lemma_filter_push(s.last(), hit);
    }
}

/// In a list with distinct identifiers, a record's identifier occurs
/// once: taking out the first record under it and taking out every record
/// under it are the same, the list gets one shorter, and the identifier
/// is gone afterwards.
pub proof fn lemma_remove_with_unique_ids(s: Seq<TaskRecord>, id: TaskId)
    requires
        ids_unique(s),
        has_id(s, id),
    ensures
        count_id(s, id) == 1,
        without_id(s, id) == without_first(s, id),
        without_first(s, id).len() == s.len() - 1,
        !has_id(without_first(s, id), id),
        ids_unique(without_first(s, id)),
{
    lemma_first_index_of_present(s, id);
    let i = first_index(s, id);
    let w = s.remove(i);
    s.remove_ensures(i);
    assert(!has_id(w, id)) by {
        if has_id(w, id) {
            let j = choose|j: int| 0 <= j < w.len() && (#[trigger] w[j]).id == id;
            if j < i {
                assert(w[j] == s[j]);
            } else {
                assert(w[j] == s[j + 1]);
                assert(s[i].id != s[j + 1].id);
            }
        }
    }
    assert(ids_unique(w)) by {
        assert forall|a: int, b: int| 0 <= a < b < w.len() implies (#[trigger] w[a]).id != (
        #[trigger] w[b]).id by {
            let a0 = if a < i {
                a
            } else {
                a + 1
            };
            let b0 = if b < i {
                b
            } else {
                b + 1
            };
            assert(w[a] == s[a0]);
            assert(w[b] == s[b0]);
            assert(s[a0].id != s[b0].id);
        }
    }
    lemma_without_absent_id(w, id);
    lemma_count_split(s, id, i);
    lemma_filter_split(s, id, i);
}

/// Taking out every record under `id` from `s` gives what it gives from
/// `s` without place `i`, where the record at `i` carries `id`.
proof fn lemma_filter_split(s: Seq<TaskRecord>, id: TaskId, i: int)
    requires
        0 <= i < s.len(),
        s[i].id == id,
    ensures
        without_id(s, id) == without_id(s.remove(i), id),
    decreases s.len(),
{
    let keep = |r: TaskRecord| r.id != id;
    let t = s.drop_last();
    assert(t.push(s.last()) == s);
    t.lemma_filter_push(s.last(), keep);
    if i == s.len() - 1 {
        assert(s.remove(i) == t);
    } else {
        lemma_filter_split(t, id, i);
        assert(t.remove(i).push(s.last()) == s.remove(i));
        t.remove(i).lemma_filter_push(s.last(), keep);
    }
}

/// Setting the completion flag under an identifier that the list holds
/// changes the first record under it and no other: the list keeps its
/// length, that record keeps its identifier and text and has the new
/// flag, and every other record is as it was.
pub proof fn lemma_with_check(s: Seq<TaskRecord>, id: TaskId, check: bool)
    requires
        has_id(s, id),
    ensures
        with_check(s, id, check).len() == s.len(),
        is_first_with_id(s, id, first_index(s, id)),
        with_check(s, id, check)[first_index(s, id)] == (TaskRecord {
            id,
            text: s[first_index(s, id)].text,
            check,
        }),
        forall|j: int|
            0 <= j < s.len() && j != first_index(s, id) ==> (#[trigger] with_check(
                s,
                id,
                check,
            )[j]) == s[j],
        forall|j: int|
            0 <= j < s.len() ==> (#[trigger] with_check(s, id, check)[j]).id == s[j].id,
        forall|j: int|
            0 <= j < s.len() ==> (#[trigger] with_check(s, id, check)[j]).text == s[j].text,
{
    lemma_first_index_of_present(s, id);
}

/// Setting a completion flag keeps which identifiers the list holds, and
/// keeps them distinct where they were.
pub proof fn lemma_with_check_keeps_ids(s: Seq<TaskRecord>, id: TaskId, check: bool, other: TaskId)
    ensures
        has_id(with_check(s, id, check), other) == has_id(s, other),
        ids_unique(s) ==> ids_unique(with_check(s, id, check)),
{
    let w = with_check(s, id, check);
    if has_id(s, id) {
        lemma_with_check(s, id, check);
        if has_id(s, other) {
            let j = choose|j: int| 0 <= j < s.len() && (#[trigger] s[j]).id == other;
            assert(w[j].id == other);
        }
        if has_id(w, other) {
            let j = choose|j: int| 0 <= j < w.len() && (#[trigger] w[j]).id == other;
            assert(s[j].id == other);
        }
        if ids_unique(s) {
            assert forall|a: int, b: int| 0 <= a < b < w.len() implies (#[trigger] w[a]).id != (
            #[trigger] w[b]).id by {
                assert(w[a].id == s[a].id);
                assert(w[b].id == s[b].id);
            }
        }
    }
}

} // verus!
