//! What holds of the store's operations over any list of tasks.
use vstd::prelude::*;
use crate::manager::{
    added, first_match, fresh_id, has_id, is_first_match, lemma_first_match_exists,
    lemma_first_match_unique, removed, toggled, unique_ids,
};
use crate::task::TaskView;

verus! {

/// `s` is strictly increasing.
pub open spec fn increasing(s: Seq<u64>) -> bool {
    forall|i: int, j: int| 0 <= i < j < s.len() ==> s[i] < s[j]
}

/// The ids a new store issues to tasks added one after the other at the
/// clock readings `readings` (a reading that finds the largest id already
/// issued gives none).
pub open spec fn issued_ids(readings: Seq<u64>) -> Seq<u64>
    decreases readings.len(),
{
    if readings.len() == 0 {
        Seq::empty()
    } else {
        let prev = issued_ids(readings.drop_last());
        let last = if prev.len() == 0 { None } else { Some(prev.last()) };
        match fresh_id(last, readings.last()) {
            Some(id) => prev.push(id),
            None => prev,
        }
    }
}

/// Whatever the clock readings, a store issues strictly increasing ids, so
/// no two tasks it ever made share one.
pub proof fn lemma_issued_ids_distinct(readings: Seq<u64>)
    ensures
        increasing(issued_ids(readings)),
        issued_ids(readings).no_duplicates(),
    decreases readings.len(),
{
    if readings.len() > 0 {
        lemma_issued_ids_distinct(readings.drop_last());
    }
    let r = issued_ids(readings);
    assert forall|i: int, j: int| 0 <= i < r.len() && 0 <= j < r.len() && i != j implies r[i] != r[j] by {
        if i < j {
            assert(r[i] < r[j]);
        } else {
            assert(r[j] < r[i]);
        }
    }
}

/// Adds made at readings in distinct, increasing seconds get the readings
/// themselves as ids: pairwise distinct.
pub proof fn lemma_distinct_times_give_distinct_ids(readings: Seq<u64>)
    requires
        increasing(readings),
    ensures
        issued_ids(readings) == readings,
        readings.no_duplicates(),
    decreases readings.len(),
{
    if readings.len() > 0 {
        let p = readings.drop_last();
        assert(increasing(p));
        lemma_distinct_times_give_distinct_ids(p);
        assert(readings =~= p.push(readings.last()));
        if p.len() > 0 {
            assert(p.last() < readings.last());
        }
    }
    lemma_issued_ids_distinct(readings);
}

/// After adding a task, the list is the old one followed by exactly one new
/// task, with the given id and title, not completed; added to an empty store
/// it is the only task.
pub proof fn lemma_add_then_list(s: Seq<TaskView>, id: u64, title: Seq<char>)
    ensures
        added(s, id, title).len() == s.len() + 1,
        added(s, id, title).subrange(0, s.len() as int) == s,
        added(s, id, title).last() == (TaskView { id, title, completed: false }),
        added(Seq::empty(), id, title) == seq![TaskView { id, title, completed: false }],
{
    assert(added(s, id, title).subrange(0, s.len() as int) =~= s);
    assert(added(Seq::empty(), id, title) =~= seq![TaskView { id, title, completed: false }]);
}

/// Toggling an id that is present flips the flag of its task and of no
/// other; toggling any id twice gives back the list it started from.
pub proof fn lemma_toggle(s: Seq<TaskView>, id: u64)
    ensures
        toggled(toggled(s, id), id) == s,
        has_id(s, id) ==> {
            let i = first_match(s, id);
            &&& 0 <= i < s.len()
            &&& s[i].id == id
            &&& toggled(s, id).len() == s.len()
            &&& toggled(s, id)[i].completed == !s[i].completed
            &&& toggled(s, id)[i].id == s[i].id
            &&& toggled(s, id)[i].title == s[i].title
            &&& forall|j: int| 0 <= j < s.len() && j != i ==> toggled(s, id)[j] == s[j]
        },
{
    if has_id(s, id) {
        lemma_first_match_exists(s, id);
        let i = first_match(s, id);
        let t = toggled(s, id);
        assert(is_first_match(t, id, i));
        lemma_first_match_unique(t, id, i);
        assert(toggled(t, id) =~= s);
    }
}

/// Toggling an id that no task has leaves every task, its id, title, flag
/// and place, as it was.
pub proof fn lemma_toggle_missing(s: Seq<TaskView>, id: u64)
    requires
        !has_id(s, id),
    ensures
        toggled(s, id) == s,
{
}

/// Removing an id that is present takes out exactly its task: the list is
/// one shorter and the other tasks keep their relative order. Where ids are
/// unique, the id is then gone, so removing it again finds nothing.
pub proof fn lemma_remove(s: Seq<TaskView>, id: u64)
    requires
        has_id(s, id),
    ensures
        ({
            let i = first_match(s, id);
            &&& 0 <= i < s.len()
            &&& s[i].id == id
            &&& removed(s, id).len() == s.len() - 1
            &&& forall|j: int| 0 <= j < i ==> removed(s, id)[j] == s[j]
            &&& forall|j: int| i <= j < s.len() - 1 ==> removed(s, id)[j] == s[j + 1]
        }),
        unique_ids(s) ==> !has_id(removed(s, id), id),
{
    lemma_first_match_exists(s, id);
    let i = first_match(s, id);
    let r = removed(s, id);
    if unique_ids(s) && has_id(r, id) {
        let k = choose|k: int| 0 <= k < r.len() && r[k].id == id;
        if k < i {
            assert(r[k] == s[k]);
        } else {
            assert(r[k] == s[k + 1]);
        }
    }
}

/// Toggling and removing keep ids unique.
pub proof fn lemma_unique_ids_kept(s: Seq<TaskView>, id: u64)
    requires
        unique_ids(s),
    ensures
        unique_ids(toggled(s, id)),
        unique_ids(removed(s, id)),
{
    if has_id(s, id) {
        lemma_first_match_exists(s, id);
        let r = removed(s, id);
        let i = first_match(s, id);
        assert forall|a: int, b: int| 0 <= a < r.len() && 0 <= b < r.len() && a != b implies r[a].id != r[b].id by {
            let sa = if a < i { a } else { a + 1 };
            let sb = if b < i { b } else { b + 1 };
            assert(r[a] == s[sa] && r[b] == s[sb]);
        }
        let t = toggled(s, id);
        assert forall|a: int, b: int| 0 <= a < t.len() && 0 <= b < t.len() && a != b implies t[a].id != t[b].id by {
            assert(t[a].id == s[a].id && t[b].id == s[b].id);
        }
    }
}

/// Adding a task whose id no task has keeps ids unique.
pub proof fn lemma_unique_ids_add(s: Seq<TaskView>, id: u64, title: Seq<char>)
    requires
        unique_ids(s),
        !has_id(s, id),
    ensures
        unique_ids(added(s, id, title)),
{
    let r = added(s, id, title);
    assert forall|a: int, b: int| 0 <= a < r.len() && 0 <= b < r.len() && a != b implies r[a].id != r[b].id by {
        if a < s.len() && b < s.len() {
            assert(r[a] == s[a] && r[b] == s[b]);
        } else if a < s.len() {
            assert(r[a] == s[a]);
        } else {
            assert(r[b] == s[b]);
        }
    }
}

} // verus!
