//! A task store that lives in memory: a list of tasks in the order in which
//! they were inserted, and the id that the next one gets.

use super::errors::TaskError;
use super::models::{InsertTask, Task, UpdateTask};
use crate::text::{blank, is_blank};
use vstd::prelude::*;

verus! {

pub struct TaskList {
    id_tracker: i64,
    task_list: Vec<Task>,
}

/// Whether `at` is where the first task with the id `id` stands.
pub open spec fn is_first(tasks: Seq<Task>, id: i64, at: int) -> bool {
    &&& 0 <= at < tasks.len()
    &&& tasks[at].id == id
    &&& forall|j: int| 0 <= j < at ==> (#[trigger] tasks[j]).id != id
}

/// Whether no task has the id `id`.
pub open spec fn is_absent(tasks: Seq<Task>, id: i64) -> bool {
    forall|j: int| 0 <= j < tasks.len() ==> (#[trigger] tasks[j]).id != id
}

/// The task that an update makes of the task with the same id.
pub open spec fn updated(input: UpdateTask) -> Task {
    Task { id: input.id, title: input.new_title, details: input.details }
}

/// Whether `after` is `before` without the first task with the id `id`, which
/// stood at `at`.
pub open spec fn removed_at(before: Seq<Task>, after: Seq<Task>, id: i64, at: int) -> bool {
    is_first(before, id, at) && after == before.remove(at)
}

/// Whether `after` is `before` with `task` in place of the first task with
/// the id of `task`, which stood at `at`.
pub open spec fn replaced_at(before: Seq<Task>, after: Seq<Task>, task: Task, at: int) -> bool {
    is_first(before, task.id, at) && after == before.update(at, task)
}

impl View for TaskList {
    type V = Seq<Task>;

    closed spec fn view(&self) -> Seq<Task> {
        self.task_list@
    }
}

impl TaskList {
    /// The id that the next task gets.
    pub closed spec fn next_id(&self) -> i64 {
        self.id_tracker
    }

    /// The list is in order when every id in it was given out by it, and to
    /// one task only: ids are below the next id, and no two tasks share one.
    pub open spec fn well_formed(&self) -> bool {
        &&& 0 <= self.next_id()
        &&& forall|i: int| 0 <= i < self@.len() ==> 0 <= (#[trigger] self@[i]).id < self.next_id()
        &&& forall|i: int, j: int|
            0 <= i < j < self@.len() ==> (#[trigger] self@[i]).id != (#[trigger] self@[j]).id
    }

    /// The empty list; the first task gets the id 0.
    pub fn new() -> (list: TaskList)
        ensures
            list@ == Seq::<Task>::empty(),
            list.next_id() == 0,
            list.well_formed(),
    {
        TaskList { id_tracker: 0, task_list: Vec::new() }
    }

    /// How many tasks the list holds.
    pub fn len(&self) -> (n: usize)
        ensures
            n == self@.len(),
    {
        self.task_list.len()
    }

    /// Puts a task with the title and details of `input` at the end of the
    /// list, under the next id, and hands it back. A blank title is refused
    /// and the list stays as it was. The ids go up by one, and start again at
    /// 0 after the largest; until then the list stays in order, and the new
    /// task is the one that is found under its id.
    pub fn insert(&mut self, input: InsertTask) -> (res: Result<Task, TaskError>)
        ensures
            is_blank(input.non_empty_title@) ==> {
                &&& res == Err::<Task, TaskError>(TaskError::EmptyTitle)
                &&& final(self)@ == old(self)@
                &&& final(self).next_id() == old(self).next_id()
            },
            !is_blank(input.non_empty_title@) ==> {
                &&& res == Ok::<Task, TaskError>(
                    Task {
                        id: old(self).next_id(),
                        title: input.non_empty_title,
                        details: input.details,
                    },
                )
                &&& final(self)@ == old(self)@.push(res->Ok_0)
                &&& final(self).next_id() == if old(self).next_id() == i64::MAX {
                    0
                } else {
                    (old(self).next_id() + 1) as i64
                }
            },
            old(self).well_formed() && old(self).next_id() < i64::MAX
                ==> final(self).well_formed(),
            old(self).well_formed() && !is_blank(input.non_empty_title@) ==> is_first(
                final(self)@,
                old(self).next_id(),
                old(self)@.len() as int,
            ),
    {
        if blank(input.non_empty_title.as_str()) {
            Err(TaskError::EmptyTitle)
        } else {
            let new_task = Task {
                id: self.id_tracker,
                title: input.non_empty_title,
                details: input.details,
            };
            self.task_list.push(new_task.clone());
            self.id_tracker = if self.id_tracker == i64::MAX {
                0
            } else {
                self.id_tracker + 1
            };
            Ok(new_task)
        }
    }

    /// Where the first task with the id `id` stands, if there is one.
    fn position(&self, id: i64) -> (at: Option<usize>)
        ensures
            match at {
                Some(at) => is_first(self@, id, at as int),
                None => is_absent(self@, id),
            },
    {
        let mut i: usize = 0;
        while i < self.task_list.len()
            invariant
                i <= self.task_list@.len(),
                forall|j: int| 0 <= j < i ==> (#[trigger] self.task_list@[j]).id != id,
            decreases self.task_list@.len() - i,
        {
            if self.task_list[i].id == id {
                return Some(i);
            }
            i += 1;
        }
        None
    }

    /// All tasks, in the order in which they were inserted.
    pub fn find_all(&self) -> (tasks: Vec<Task>)
        ensures
            tasks@ == self@,
    {
        let mut tasks: Vec<Task> = Vec::new();
        let mut i: usize = 0;
        while i < self.task_list.len()
            invariant
                i <= self.task_list@.len(),
                tasks@ == self.task_list@.take(i as int),
            decreases self.task_list@.len() - i,
        {
            tasks.push(self.task_list[i].clone());
            assert(self.task_list@.take(i + 1) =~= self.task_list@.take(i as int).push(
                self.task_list@[i as int],
            ));
            i += 1;
        }
        tasks
    }

    /// The first task with the id `id`.
    pub fn find_by_id(&self, id: i64) -> (res: Result<Task, TaskError>)
        ensures
            is_absent(self@, id) ==> res == Err::<Task, TaskError>(TaskError::NotFound(id)),
            !is_absent(self@, id) ==> res is Ok && exists|at: int|
                is_first(self@, id, at) && res->Ok_0 == self@[at],
    {
        match self.position(id) {
            Some(at) => Ok(self.task_list[at].clone()),
            None => Err(TaskError::NotFound(id)),
        }
    }

    /// Takes the first task with the id `id` out of the list and hands it
    /// back; the others keep their order.
    pub fn delete(&mut self, id: i64) -> (res: Result<Task, TaskError>)
        ensures
            is_absent(old(self)@, id) ==> {
                &&& res == Err::<Task, TaskError>(TaskError::NotFound(id))
                &&& final(self)@ == old(self)@
            },
            !is_absent(old(self)@, id) ==> res is Ok && exists|at: int|
                removed_at(old(self)@, final(self)@, id, at) && res->Ok_0 == old(self)@[at],
            final(self).next_id() == old(self).next_id(),
            old(self).well_formed() ==> final(self).well_formed(),
    {
        match self.position(id) {
            Some(at) => Ok(self.task_list.remove(at)),
            None => Err(TaskError::NotFound(id)),
        }
    }

    /// Gives the first task with the id of `input` the title and details of
    /// `input`, and hands the new task back. A blank title is refused before
    /// the task is looked for.
    pub fn update(&mut self, input: UpdateTask) -> (res: Result<Task, TaskError>)
        ensures
            is_blank(input.new_title@) ==> {
                &&& res == Err::<Task, TaskError>(TaskError::EmptyTitle)
                &&& final(self)@ == old(self)@
            },
            !is_blank(input.new_title@) && is_absent(old(self)@, input.id) ==> {
                &&& res == Err::<Task, TaskError>(TaskError::NotFound(input.id))
                &&& final(self)@ == old(self)@
            },
            !is_blank(input.new_title@) && !is_absent(old(self)@, input.id) ==> {
                &&& res == Ok::<Task, TaskError>(updated(input))
                &&& exists|at: int| replaced_at(old(self)@, final(self)@, updated(input), at)
            },
            final(self).next_id() == old(self).next_id(),
            old(self).well_formed() ==> final(self).well_formed(),
    {
        if blank(input.new_title.as_str()) {
            Err(TaskError::EmptyTitle)
        } else {
            match self.position(input.id) {
                Some(at) => {
                    let task = Task {
                        id: input.id,
                        title: input.new_title,
                        details: input.details,
                    };
                    self.task_list.set(at, task.clone());
                    assert(replaced_at(old(self)@, self@, task, at as int));
                    Ok(task)
                },
                None => Err(TaskError::NotFound(input.id)),
            }
        }
    }
}

} // verus!
