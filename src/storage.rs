use crate::task::{Priority, Task, Timestamp, changed, marked_complete};
use vstd::prelude::*;
use vstd::string::*;

verus! {

/// Why a change to the collection was refused.
#[derive(Clone, Copy, Debug, PartialEq, Eq, Structural)]
pub enum StoreError {
    /// No task in the collection has the requested id.
    NotFound,
}

/// Whether some task in `s` has id `id`.
pub open spec fn has_id(s: Seq<Task>, id: usize) -> bool {
    exists|i: int| 0 <= i < s.len() && s[i].id == id
}

/// Whether `i` is the position of the first task in `s` with id `id`.
pub open spec fn is_first(s: Seq<Task>, id: usize, i: int) -> bool {
    &&& 0 <= i < s.len()
    &&& s[i].id == id
    &&& forall|j: int| 0 <= j < i ==> s[j].id != id
}

/// The largest id in `s`, or 0 when `s` is empty.
pub open spec fn max_id(s: Seq<Task>) -> nat
    decreases s.len(),
{
    if s.len() == 0 {
        0
    } else {
        let m = max_id(s.drop_last());
        if s.last().id > m {
            s.last().id as nat
        } else {
            m
        }
    }
}

/// Every id in `s` is below `usize::MAX`, so that one more than the largest
/// still fits.
pub open spec fn ids_fit(s: Seq<Task>) -> bool {
    forall|i: int| 0 <= i < s.len() ==> s[i].id < usize::MAX
}

/// The in-memory task collection, in file order, and the path of the file
/// that mirrors it.
pub struct TaskStorage {
    file_path: String,
    tasks: Vec<Task>,
}

impl View for TaskStorage {
    type V = Seq<Task>;

    closed spec fn view(&self) -> Seq<Task> {
        self.tasks@
    }
}

impl TaskStorage {
    pub closed spec fn path(&self) -> Seq<char> {
        self.file_path@
    }

    /// A collection backed by `file_path`, holding what was loaded from it;
    /// nothing loaded (a missing, blank or unreadable file) gives an empty
    /// collection.
    pub fn new(file_path: &str, loaded: Option<Vec<Task>>) -> (r: Self)
        ensures
            r.path() == file_path@,
            r@ == match loaded {
                Some(v) => v@,
                None => Seq::<Task>::empty(),
            },
    {
        let tasks = match loaded {
            Some(v) => v,
            None => Vec::new(),
        };
        TaskStorage { file_path: String::from_str(file_path), tasks }
    }

    /// The path of the backing file.
    pub fn file_path(&self) -> (r: &str)
        ensures
            r@ == self.path(),
    {
        self.file_path.as_str()
    }

    /// Appends a task at the end of the collection.
    pub fn add_task(&mut self, task: Task)
        ensures
            final(self)@ == old(self)@.push(task),
            final(self).path() == old(self).path(),
    {
        self.tasks.push(task);
    }

    /// All tasks, in file order.
    pub fn get_tasks(&self) -> (r: &Vec<Task>)
        ensures
            r@ == self@,
    {
        &self.tasks
    }

    /// The position of the first task with id `id`.
    fn position(&self, id: usize) -> (r: Option<usize>)
        ensures
            match r {
                Some(i) => is_first(self@, id, i as int),
                None => !has_id(self@, id),
            },
    {
        let mut i: usize = 0;
        while i < self.tasks.len()
            invariant
                0 <= i <= self@.len(),
                forall|j: int| 0 <= j < i ==> self@[j].id != id,
            decreases self@.len() - i,
        {
            if self.tasks[i].id == id {
                return Some(i);
            }
            i = i + 1;
        }
        None
    }

    /// The first task with id `id`, if any.
    pub fn get_task_by_id(&self, id: usize) -> (r: Option<&Task>)
        ensures
            match r {
                Some(t) => exists|i: int| is_first(self@, id, i) && *t == self@[i],
                None => !has_id(self@, id),
            },
    {
        match self.position(id) {
            Some(i) => Some(&self.tasks[i]),
            None => None,
        }
    }

    /// Replaces, in place, the first task whose id is that of `updated_task`.
    pub fn update_task(&mut self, updated_task: Task) -> (r: Result<(), StoreError>)
        ensures
            final(self).path() == old(self).path(),
            has_id(old(self)@, updated_task.id) ==> r is Ok && exists|i: int|
                is_first(old(self)@, updated_task.id, i) && final(self)@ == old(self)@.update(
                    i,
                    updated_task,
                ),
            !has_id(old(self)@, updated_task.id) ==> r == Err::<(), StoreError>(
                StoreError::NotFound,
            ) && final(self)@ == old(self)@,
    {
        match self.position(updated_task.id) {
            Some(i) => {
                self.tasks.set(i, updated_task);
                Ok(())
            },
            None => Err(StoreError::NotFound),
        }
    }

    /// Removes the first task with id `id`.
    pub fn delete_task(&mut self, id: usize) -> (r: Result<(), StoreError>)
        ensures
            final(self).path() == old(self).path(),
            has_id(old(self)@, id) ==> r is Ok && exists|i: int|
                is_first(old(self)@, id, i) && final(self)@ == old(self)@.remove(i),
            !has_id(old(self)@, id) ==> r == Err::<(), StoreError>(StoreError::NotFound)
                && final(self)@ == old(self)@,
    {
        match self.position(id) {
            Some(i) => {
                self.tasks.remove(i);
                Ok(())
            },
            None => Err(StoreError::NotFound),
        }
    }

    /// Marks the first task with id `id` complete.
    pub fn complete_task(&mut self, id: usize) -> (r: Result<(), StoreError>)
        ensures
            final(self).path() == old(self).path(),
            has_id(old(self)@, id) ==> r is Ok && exists|i: int|
                is_first(old(self)@, id, i) && final(self)@ == old(self)@.update(
                    i,
                    marked_complete(old(self)@[i]),
                ),
            !has_id(old(self)@, id) ==> r == Err::<(), StoreError>(StoreError::NotFound)
                && final(self)@ == old(self)@,
    {
        match self.position(id) {
            Some(i) => {
                let cur = &self.tasks[i];
                let mut t = Task {
                    id: cur.id,
                    title: cur.title.clone(),
                    description: cur.description.clone(),
                    created_at: cur.created_at,
                    due_date: cur.due_date,
                    priority: cur.priority,
                    completed: cur.completed,
                };
                t.mark_as_complete();
                self.tasks.set(i, t);
                Ok(())
            },
            None => Err(StoreError::NotFound),
        }
    }

    /// Creates a task under the next id, appends it, and returns that id.
    pub fn add_new(
        &mut self,
        title: String,
        description: String,
        due_date: Option<Timestamp>,
        priority: Priority,
    ) -> (r: usize)
        requires
            ids_fit(old(self)@),
        ensures
            r == max_id(old(self)@) + 1,
            final(self).path() == old(self).path(),
            final(self)@.len() == old(self)@.len() + 1,
            final(self)@.drop_last() == old(self)@,
            ({
                let t = final(self)@.last();
                &&& t.id == r
                &&& t.title == title
                &&& t.description == description
                &&& t.due_date == due_date
                &&& t.priority == priority
                &&& !t.completed
                &&& t.created_at.wf()
            }),
    {
        let id = self.get_next_id();
        let t = Task::new(id, title, description, due_date, priority);
        self.tasks.push(t);
        assert(self@.drop_last() =~= old(self)@);
        id
    }

    /// Replaces the given fields of the first task with id `id`, keeping its
    /// position and every field for which no replacement is given.
    pub fn update_fields(
        &mut self,
        id: usize,
        title: Option<String>,
        description: Option<String>,
        due_date: Option<Timestamp>,
        priority: Option<Priority>,
    ) -> (r: Result<(), StoreError>)
        ensures
            final(self).path() == old(self).path(),
            has_id(old(self)@, id) ==> r is Ok && exists|i: int|
                is_first(old(self)@, id, i) && final(self)@ == old(self)@.update(
                    i,
                    changed(old(self)@[i], title, description, due_date, priority),
                ),
            !has_id(old(self)@, id) ==> r == Err::<(), StoreError>(StoreError::NotFound)
                && final(self)@ == old(self)@,
    {
        match self.position(id) {
            Some(i) => {
                let t = self.tasks[i].with_changes(title, description, due_date, priority);
                self.tasks.set(i, t);
                Ok(())
            },
            None => Err(StoreError::NotFound),
        }
    }

    /// One more than the largest id in the collection; 1 when it is empty.
    pub fn get_next_id(&self) -> (r: usize)
        requires
            ids_fit(self@),
        ensures
            r == max_id(self@) + 1,
    {
        let mut m: usize = 0;
        let mut i: usize = 0;
        while i < self.tasks.len()
            invariant
                0 <= i <= self@.len(),
                ids_fit(self@),
                m == max_id(self@.take(i as int)),
                m < usize::MAX,
            decreases self@.len() - i,
        {
            proof {
                assert(self@.take(i as int + 1).drop_last() =~= self@.take(i as int));
            }
            if self.tasks[i].id > m {
                m = self.tasks[i].id;
            }
            i = i + 1;
        }
        assert(self@.take(i as int) =~= self@);
        m + 1
    }
}

/// Adding a task makes the largest id the greater of the old largest id
/// and the new task's id.
pub proof fn lemma_max_id_after_add(s: Seq<Task>, t: Task)
    ensures
        max_id(s.push(t)) == if t.id > max_id(s) {
            t.id as nat
        } else {
            max_id(s)
        },
{
    assert(s.push(t).drop_last() =~= s);
}

/// Whether every task of `s` was added with the id that the collection
/// offered as next at that moment.
pub open spec fn added_in_turn(s: Seq<Task>) -> bool {
    forall|i: int| 0 <= i < s.len() ==> s[i].id == max_id(s.take(i)) + 1
}

/// Starting from an empty collection, after N additions that each took the
/// offered next id, the next id offered is N + 1.
pub proof fn lemma_next_id_counts_adds(s: Seq<Task>)
    requires
        added_in_turn(s),
    ensures
        max_id(s) + 1 == s.len() + 1,
    decreases s.len(),
{
    if s.len() > 0 {
        let p = s.drop_last();
        assert forall|i: int| 0 <= i < p.len() implies p[i].id == max_id(p.take(i)) + 1 by {
            assert(p.take(i) =~= s.take(i));
        }
        lemma_next_id_counts_adds(p);
        assert(s.take(p.len() as int) =~= p);
        assert(p.push(s.last()) =~= s);
        lemma_max_id_after_add(p, s.last());
    }
}

/// Removing tasks never raises the largest id, so an id handed out once is
/// not offered again after a deletion.
pub proof fn lemma_max_id_after_remove(s: Seq<Task>, i: int)
    requires
        0 <= i < s.len(),
    ensures
        max_id(s.remove(i)) <= max_id(s),
    decreases s.len(),
{
    if i < s.len() - 1 {
        let p = s.drop_last();
        lemma_max_id_after_remove(p, i);
        assert(p.remove(i).push(s.last()) =~= s.remove(i));
        lemma_max_id_after_add(p.remove(i), s.last());
    } else {
        assert(s.remove(i) =~= s.drop_last());
    }
}

} // verus!
