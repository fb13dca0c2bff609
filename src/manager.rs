use vstd::prelude::*;
use crate::clock::{generate_id, IdError};
use crate::task::{Task, TaskView};

verus! {

/// Whether some task in `s` has the id `id`.
pub open spec fn has_id(s: Seq<TaskView>, id: u64) -> bool {
    exists|i: int| 0 <= i < s.len() && s[i].id == id
}

/// `i` is the position of the first task in `s` with the id `id`.
pub open spec fn is_first_match(s: Seq<TaskView>, id: u64, i: int) -> bool {
    &&& 0 <= i < s.len()
    &&& s[i].id == id
    &&& forall|j: int| 0 <= j < i ==> s[j].id != id
}

/// The position of the first task in `s` with the id `id` (meaningful when
/// `has_id(s, id)`).
pub open spec fn first_match(s: Seq<TaskView>, id: u64) -> int {
    choose|i: int| is_first_match(s, id, i)
}

/// The list after toggling `id`: the first task with that id has its flag
/// flipped; without such a task the list is unchanged.
pub open spec fn toggled(s: Seq<TaskView>, id: u64) -> Seq<TaskView> {
    if has_id(s, id) {
        s.update(first_match(s, id), s[first_match(s, id)].flipped())
    } else {
        s
    }
}

/// The list after removing `id`: the first task with that id is taken out and
/// the others keep their order; without such a task the list is unchanged.
pub open spec fn removed(s: Seq<TaskView>, id: u64) -> Seq<TaskView> {
    if has_id(s, id) {
        s.remove(first_match(s, id))
    } else {
        s
    }
}

/// The id that a store which last issued `last` gives to a task added at
/// clock reading `secs`: the reading itself, raised where needed to one more
/// than the last id issued, so that no id is issued twice. `None` once the
/// largest id has been issued.
pub open spec fn fresh_id(last: Option<u64>, secs: u64) -> Option<u64> {
    match last {
        None => Some(secs),
        Some(l) => if l == u64::MAX {
            None
        } else if secs > l {
            Some(secs)
        } else {
            Some((l + 1) as u64)
        },
    }
}

/// The list after adding a task with id `id` and title `title`.
pub open spec fn added(s: Seq<TaskView>, id: u64, title: Seq<char>) -> Seq<TaskView> {
    s.push(TaskView { id, title, completed: false })
}

/// No two tasks of `s` share an id.
pub open spec fn unique_ids(s: Seq<TaskView>) -> bool {
    forall|i: int, j: int| 0 <= i < s.len() && 0 <= j < s.len() && i != j ==> s[i].id != s[j].id
}

/// Every position with id `id` in `s` is the first such position, once it
/// is one at all.
pub proof fn lemma_first_match_unique(s: Seq<TaskView>, id: u64, i: int)
    requires
        is_first_match(s, id, i),
    ensures
        has_id(s, id),
        first_match(s, id) == i,
{
    assert(is_first_match(s, id, i));
    let k = first_match(s, id);
    assert(is_first_match(s, id, k));
    if k < i {
        assert(s[k].id != id);
    } else if k > i {
        assert(s[i].id != id);
    }
}

/// Where some task has the id `id`, a first one does.
pub proof fn lemma_first_match_exists(s: Seq<TaskView>, id: u64)
    requires
        has_id(s, id),
    ensures
        is_first_match(s, id, first_match(s, id)),
{
    let k = choose|k: int| 0 <= k < s.len() && s[k].id == id;
    lemma_first_match_below(s, id, k);
}

proof fn lemma_first_match_below(s: Seq<TaskView>, id: u64, k: int)
    requires
        0 <= k < s.len(),
        s[k].id == id,
    ensures
        is_first_match(s, id, first_match(s, id)),
    decreases k,
{
    if exists|j: int| 0 <= j < k && s[j].id == id {
        let j = choose|j: int| 0 <= j < k && s[j].id == id;
        lemma_first_match_below(s, id, j);
    } else {
        assert(is_first_match(s, id, k));
    }
}

/// The tasks of one run of the program, in the order they were created,
/// and the last id issued to any of them, removed ones included.
pub struct TaskManager {
    tasks: Vec<Task>,
    last_issued: Option<u64>,
}

impl View for TaskManager {
    type V = Seq<TaskView>;

    closed spec fn view(&self) -> Seq<TaskView> {
        self.tasks@.map_values(|t: Task| t@)
    }
}

impl TaskManager {
    /// The last id this store issued, if any.
    pub closed spec fn issued(&self) -> Option<u64> {
        self.last_issued
    }

    /// The store's invariant: ids are unique and none exceeds the last one
    /// issued.
    pub closed spec fn wf(&self) -> bool {
        &&& unique_ids(self@)
        &&& match self.last_issued {
            None => self@.len() == 0,
            Some(l) => forall|i: int| 0 <= i < self@.len() ==> self@[i].id <= l,
        }
    }

    /// A well-formed store has unique ids.
    pub proof fn lemma_wf_unique(&self)
        requires
            self.wf(),
        ensures
            unique_ids(self@),
    {
    }

    /// An empty store that has issued no id.
    pub fn new() -> (m: TaskManager)
        ensures
            m@ == Seq::<TaskView>::empty(),
            m.issued() is None,
            m.wf(),
    {
        let m = TaskManager { tasks: Vec::new(), last_issued: None };
        assert(m@ =~= Seq::<TaskView>::empty());
        m
    }

    /// The position of the first task with id `id`, if any.
    fn find(&self, id: u64) -> (r: Option<usize>)
        ensures
            r.is_none() <==> !has_id(self@, id),
            r matches Some(i) ==> is_first_match(self@, id, i as int),
    {
        let mut i: usize = 0;
        while i < self.tasks.len()
            invariant
                i <= self.tasks@.len(),
                self@.len() == self.tasks@.len(),
                forall|j: int| 0 <= j < self.tasks@.len() ==> self@[j] == self.tasks@[j]@,
                forall|j: int| 0 <= j < i ==> self@[j].id != id,
            decreases self.tasks@.len() - i,
        {
            if self.tasks[i].id() == id {
                assert(self@[i as int].id == id);
                return Some(i);
            }
            i = i + 1;
        }
        None
    }

    /// Flips the completion flag of the task with id `id`. Returns whether
    /// such a task was there; without one nothing changes.
    pub fn toggle_task(&mut self, id: u64) -> (r: bool)
        requires
            old(self).wf(),
        ensures
            final(self).wf(),
            final(self).issued() == old(self).issued(),
            r == has_id(old(self)@, id),
            final(self)@ == toggled(old(self)@, id),
    {
        match self.find(id) {
            Some(i) => {
                proof {
                    lemma_first_match_unique(self@, id, i as int);
                }
                let ghost before = self@;
                self.tasks[i].toggle_status();
                assert(self@ =~= toggled(before, id));
                assert(forall|j: int| 0 <= j < self@.len() ==> self@[j].id == before[j].id);
                true
            },
            None => false,
        }
    }

    /// Removes the task with id `id`, keeping the order of the others.
    /// Returns whether such a task was there; without one nothing changes.
    pub fn remove_task(&mut self, id: u64) -> (r: bool)
        requires
            old(self).wf(),
        ensures
            final(self).wf(),
            final(self).issued() == old(self).issued(),
            r == has_id(old(self)@, id),
            final(self)@ == removed(old(self)@, id),
    {
        match self.find(id) {
            Some(i) => {
                proof {
                    lemma_first_match_unique(self@, id, i as int);
                }
                let ghost before = self@;
                self.tasks.remove(i);
                assert(self@ =~= removed(before, id));
                assert(forall|j: int| 0 <= j < self@.len() ==> #[trigger] self@[j] == before[if j < i { j } else { j + 1 }]);
                true
            },
            None => false,
        }
    }

    /// Appends a new, not yet completed task for a clock reading of `secs`
    /// seconds, under the id `fresh_id` gives, and returns that id. Once the
    /// largest id has been issued, fails with `Exhausted` and changes nothing.
    pub fn add_task_at(&mut self, secs: u64, title: String) -> (r: Result<u64, IdError>)
        requires
            old(self).wf(),
        ensures
            final(self).wf(),
            match fresh_id(old(self).issued(), secs) {
                Some(id) => {
                    &&& r == Ok::<u64, IdError>(id)
                    &&& !has_id(old(self)@, id)
                    &&& final(self)@ == added(old(self)@, id, title@)
                    &&& final(self).issued() == Some(id)
                },
                None => {
                    &&& r == Err::<u64, IdError>(IdError::Exhausted)
                    &&& final(self)@ == old(self)@
                    &&& final(self).issued() == old(self).issued()
                },
            },
    {
        let id: u64 = match self.last_issued {
            None => secs,
            Some(l) => {
                if l == u64::MAX {
                    return Err(IdError::Exhausted);
                } else if secs > l {
                    secs
                } else {
                    l + 1
                }
            },
        };
        let ghost before = self@;
        assert(!has_id(before, id)) by {
            if has_id(before, id) {
                let k = choose|k: int| 0 <= k < before.len() && before[k].id == id;
                assert(before[k].id <= self.last_issued.unwrap());
            }
        }
        self.tasks.push(Task::new(id, title));
        self.last_issued = Some(id);
        assert(self@ =~= added(before, id, title@));
        assert(forall|j: int| 0 <= j < before.len() ==> self@[j] == before[j]);
        Ok(id)
    }

    /// Appends a new task for the clock's current reading (see
    /// `generate_id` and `add_task_at`) and returns its id, which no task
    /// of the store had. When no id can be had, nothing is added.
    pub fn add_task(&mut self, title: String) -> (r: Result<u64, IdError>)
        requires
            old(self).wf(),
        ensures
            final(self).wf(),
            r matches Ok(id) ==> {
                &&& !has_id(old(self)@, id)
                &&& final(self)@ == added(old(self)@, id, title@)
                &&& final(self).issued() == Some(id)
            },
            r is Err ==> final(self)@ == old(self)@ && final(self).issued() == old(self).issued(),
    {
        match generate_id() {
            Ok(secs) => self.add_task_at(secs, title),
            Err(e) => Err(e),
        }
    }

    /// The tasks in their current order.
    pub fn list_tasks(&self) -> (r: &[Task])
        ensures
            r@.map_values(|t: Task| t@) == self@,
    {
        self.tasks.as_slice()
    }

    /// The number of tasks held.
    pub fn len(&self) -> (r: usize)
        ensures
            r == self@.len(),
    {
        self.tasks.len()
    }

    /// Whether no task is held.
    pub fn is_empty(&self) -> (r: bool)
        ensures
            r == (self@.len() == 0),
    {
        self.tasks.len() == 0
    }
}

} // verus!
