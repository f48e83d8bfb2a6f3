//! What the task routes decide: the one favorite of a session, and the
//! answers to what the task store reports.

use super::errors::TaskError;
use super::models::{QueryTask, Task};
use crate::errors::AppError;
use crate::reply::{Answer, Reply, CREATED, FOUND, NOT_MODIFIED, NO_CONTENT, OK};
use crate::session::{Session, Slot};
use crate::text::{decimal, push_decimal, push_signed_decimal, signed_decimal};
use vstd::prelude::*;

verus! {

/// A question to the task store that a request to favorite a task waits for.
#[derive(Debug, PartialEq, Eq)]
pub struct Lookup {
    /// The task that is asked for.
    pub id: i64,
    /// The error of the request if the store has no such task.
    pub miss: TaskError,
}

/// How far a request to favorite a task has come once the session is read.
#[derive(Debug, PartialEq, Eq)]
pub enum FavoriteStep {
    /// The task was the favorite, and no longer is: the request is answered.
    Unfavorited(i64),
    /// The favorite in the session could not be read: the request has failed.
    Failed(AppError),
    /// The task store has to be asked for the task; until it has answered the
    /// slot stays as it is.
    Lookup(Lookup),
}

/// What a request to favorite the task `id` decides from the favorite slot.
pub open spec fn favorite_step(slot: Slot<Task>, id: i64) -> FavoriteStep {
    match slot {
        Slot::Empty => FavoriteStep::Lookup(Lookup { id, miss: TaskError::NoneFavorite }),
        Slot::Unreadable(why) => FavoriteStep::Failed(AppError::Json(why)),
        Slot::Filled(old_favorite) => if old_favorite.id == id {
            FavoriteStep::Unfavorited(id)
        } else {
            FavoriteStep::Lookup(Lookup { id, miss: TaskError::NotFound(id) })
        },
    }
}

/// The favorite slot once the task store has answered: a task that was found
/// is the favorite, and else the slot is as it was.
pub open spec fn settled(slot: Slot<Task>, found: Option<Task>) -> Slot<Task> {
    match found {
        Some(task) => Slot::Filled(task),
        None => slot,
    }
}

/// The favorite slot once the first half of a request to favorite the task
/// `id` is done: it is emptied where the request ends there, because the task
/// was the favorite or because the slot could not be read, and is as it was
/// where the task store has to be asked.
pub open spec fn slot_after_step(slot: Slot<Task>, id: i64) -> Slot<Task> {
    match favorite_step(slot, id) {
        FavoriteStep::Lookup(_) => slot,
        _ => Slot::Empty,
    }
}

/// The favorite slot after a whole request to favorite the task `id`, where
/// `stored` is what the task store has for `id`. A request that fails because
/// the store has no such task changes nothing.
pub open spec fn slot_after_favorite(slot: Slot<Task>, id: i64, stored: Option<Task>) -> Slot<
    Task,
> {
    match favorite_step(slot, id) {
        FavoriteStep::Lookup(_) => settled(slot, stored),
        _ => Slot::Empty,
    }
}

/// The first half of a request to favorite the task `id`. If the task is the
/// favorite the slot is emptied and the request is answered: this is how a
/// favorite is given up. A slot that cannot be read is emptied too, and the
/// request fails. Otherwise the task store has to be asked, and
/// `Lookup::settle` takes its answer; the slot is not touched before that.
pub fn favorite(session: &mut Session, id: i64) -> (step: FavoriteStep)
    ensures
        step == favorite_step(old(session).favorite_task, id),
        final(session).favorite_task == slot_after_step(old(session).favorite_task, id),
        final(session).identity == old(session).identity,
{
    let keep = match &session.favorite_task {
        Slot::Filled(old_favorite) => old_favorite.id != id,
        Slot::Unreadable(_) => false,
        Slot::Empty => true,
    };
    if keep {
        let miss = match &session.favorite_task {
            Slot::Empty => TaskError::NoneFavorite,
            _ => TaskError::NotFound(id),
        };
        FavoriteStep::Lookup(Lookup { id, miss })
    } else {
        let mut taken = Slot::Empty;
        std::mem::swap(&mut session.favorite_task, &mut taken);
        match taken {
            Slot::Unreadable(why) => FavoriteStep::Failed(AppError::Json(why)),
            _ => FavoriteStep::Unfavorited(id),
        }
    }
}

impl Lookup {
    /// The second half of a request to favorite a task: `found` is what the
    /// task store has for `self.id`. A task that was found becomes the
    /// favorite and is handed back; if none was found the request fails with
    /// `self.miss` and the session stays as it is.
    pub fn settle(self, session: &mut Session, found: Option<Task>) -> (res: Result<
        Task,
        AppError,
    >)
        ensures
            res == match found {
                Some(task) => Ok::<Task, AppError>(task),
                None => Err(AppError::Task(self.miss)),
            },
            final(session).favorite_task == settled(old(session).favorite_task, found),
            final(session).identity == old(session).identity,
    {
        match found {
            Some(task) => {
                session.favorite_task = Slot::Filled(task.clone());
                Ok(task)
            },
            None => Err(AppError::Task(self.miss)),
        }
    }
}

/// The answer to a request that gave up its favorite: no content.
pub fn unfavorited() -> (reply: Reply)
    ensures
        reply.status == NO_CONTENT,
        reply.body@.len() == 0,
{
    Reply { status: NO_CONTENT, body: String::new() }
}

/// The answer to a request that set or read the favorite: the task, found.
pub fn favorited(task: Task) -> (answer: Answer<Task>)
    ensures
        answer == (Answer { status: FOUND, body: task }),
{
    Answer::found(task)
}

/// The favorite, as the session holds it. The session is only read, and the
/// task store is not asked: what comes back is what was stored, or an error.
pub fn find_favorite(session: &Session) -> (res: Result<Task, AppError>)
    ensures
        res == match session.favorite_task {
            Slot::Empty => Err::<Task, AppError>(AppError::Task(TaskError::NoneFavorite)),
            Slot::Unreadable(why) => Err(AppError::Actix { status: 500, text: why }),
            Slot::Filled(task) => Ok(task),
        },
{
    match &session.favorite_task {
        Slot::Filled(task) => Ok(task.clone()),
        Slot::Unreadable(why) => Err(AppError::Actix { status: 500, text: why.clone() }),
        Slot::Empty => Err(AppError::Task(TaskError::NoneFavorite)),
    }
}

/// Favoriting a task that is not the favorite, and then the same task again,
/// leaves no favorite: the first request sets it, the second gives it up
/// without asking the task store.
pub proof fn lemma_favorite_twice_is_none(slot: Slot<Task>, task: Task, again: Option<Task>)
    requires
        favorite_step(slot, task.id) is Lookup,
    ensures
        slot_after_favorite(slot, task.id, Some(task)) == Slot::Filled(task),
        favorite_step(Slot::Filled(task), task.id) == FavoriteStep::Unfavorited(task.id),
        slot_after_favorite(slot_after_favorite(slot, task.id, Some(task)), task.id, again)
            == Slot::<Task>::Empty,
{
}

/// Favoriting one task and then another leaves the second as the favorite,
/// and nothing of the first.
pub proof fn lemma_favorite_replaces(slot: Slot<Task>, first: Task, second: Task)
    requires
        favorite_step(slot, first.id) is Lookup,
        first.id != second.id,
    ensures
        slot_after_favorite(
            slot_after_favorite(slot, first.id, Some(first)),
            second.id,
            Some(second),
        ) == Slot::Filled(second),
{
}

/// A request to favorite a task that the task store does not have fails and
/// makes no transition: with `NoneFavorite` where there was no favorite, which
/// there still is not; with `NotFound` where another task was the favorite,
/// which it still is.
pub proof fn lemma_favorite_missing(slot: Slot<Task>, id: i64)
    requires
        favorite_step(slot, id) is Lookup,
    ensures
        slot_after_step(slot, id) == slot,
        slot_after_favorite(slot, id, None) == slot,
        slot is Empty ==> favorite_step(slot, id) == FavoriteStep::Lookup(
            Lookup { id, miss: TaskError::NoneFavorite },
        ),
        slot matches Slot::Filled(other) ==> other.id != id && favorite_step(slot, id)
            == FavoriteStep::Lookup(Lookup { id, miss: TaskError::NotFound(id) }),
{
}

/// The two halves of a request make the whole: the slot after `favorite` and
/// then `Lookup::settle` with what the task store has is the slot after the
/// request.
pub proof fn lemma_halves_make_the_whole(slot: Slot<Task>, id: i64, stored: Option<Task>)
    requires
        favorite_step(slot, id) is Lookup,
    ensures
        settled(slot_after_step(slot, id), stored) == slot_after_favorite(slot, id, stored),
{
}

/// The answer to an update that changed `num_modified` tasks.
pub fn update(num_modified: u64) -> (reply: Reply)
    ensures
        num_modified == 0 ==> reply.status == NOT_MODIFIED && reply.body@
            == "No tasks were updated."@,
        num_modified != 0 ==> reply.status == OK && reply.body@ == "Updated "@ + decimal(
            num_modified as nat,
        ) + " tasks."@,
{
    if num_modified == 0 {
        Reply { status: NOT_MODIFIED, body: String::from_str("No tasks were updated.") }
    } else {
        let mut body = String::from_str("Updated ");
        push_decimal(&mut body, num_modified);
        body.append(" tasks.");
        Reply { status: OK, body }
    }
}

/// The answer to a deletion that removed `num_modified` tasks.
pub fn delete(num_modified: u64) -> (reply: Reply)
    ensures
        num_modified == 0 ==> reply.status == NOT_MODIFIED && reply.body@
            == "No tasks were deleted."@,
        num_modified != 0 ==> reply.status == OK && reply.body@ == "Deleted "@ + decimal(
            num_modified as nat,
        ) + " tasks."@,
{
    if num_modified == 0 {
        Reply { status: NOT_MODIFIED, body: String::from_str("No tasks were deleted.") }
    } else {
        let mut body = String::from_str("Deleted ");
        push_decimal(&mut body, num_modified);
        body.append(" tasks.");
        Reply { status: OK, body }
    }
}

/// The answer to marking the task `id` as done: `done_id` is the row that the
/// task store wrote for it, and 0 if it wrote none.
pub fn done(done_id: i64, id: i64) -> (reply: Reply)
    ensures
        done_id == 0 ==> reply.status == NOT_MODIFIED && reply.body@ == "Task with id "@
            + signed_decimal(id as int) + " not done."@,
        done_id != 0 ==> reply.status == CREATED && reply.body@ == signed_decimal(done_id as int),
{
    if done_id == 0 {
        let mut body = String::from_str("Task with id ");
        push_signed_decimal(&mut body, id);
        body.append(" not done.");
        Reply { status: NOT_MODIFIED, body }
    } else {
        let mut body = String::new();
        push_signed_decimal(&mut body, done_id);
        Reply { status: CREATED, body }
    }
}

/// The answer to taking back that the task `id` is done, where the task store
/// changed `num_modified` rows.
pub fn undo(num_modified: u64, id: i64) -> (reply: Reply)
    ensures
        num_modified == 0 ==> reply.status == NOT_MODIFIED && reply.body@ == "Task with id "@
            + signed_decimal(id as int) + " not undone."@,
        num_modified != 0 ==> reply.status == OK && reply.body@ == "Undone "@ + decimal(
            num_modified as nat,
        ) + " tasks."@,
{
    if num_modified == 0 {
        let mut body = String::from_str("Task with id ");
        push_signed_decimal(&mut body, id);
        body.append(" not undone.");
        Reply { status: NOT_MODIFIED, body }
    } else {
        let mut body = String::from_str("Undone ");
        push_decimal(&mut body, num_modified);
        body.append(" tasks.");
        Reply { status: OK, body }
    }
}

/// The tasks to list, unless there are none.
pub fn find_all(tasks: Vec<Task>) -> (res: Result<Vec<Task>, AppError>)
    ensures
        res == if tasks@.len() == 0 {
            Err::<Vec<Task>, AppError>(AppError::Task(TaskError::Empty))
        } else {
            Ok(tasks)
        },
{
    if tasks.is_empty() {
        Err(AppError::Task(TaskError::Empty))
    } else {
        Ok(tasks)
    }
}

/// The tasks that are not done yet, unless there are none.
pub fn find_ongoing(tasks: Vec<Task>) -> (res: Result<Vec<Task>, AppError>)
    ensures
        res == if tasks@.len() == 0 {
            Err::<Vec<Task>, AppError>(AppError::Task(TaskError::Empty))
        } else {
            Ok(tasks)
        },
{
    find_all(tasks)
}

impl QueryTask {
    /// The pattern that the task store searches titles with: the title that
    /// is asked for, anywhere in the title of a task.
    pub fn search_pattern(&self) -> (pattern: String)
        ensures
            pattern@ == "%"@ + self.title@ + "%"@,
    {
        let mut pattern = String::from_str("%");
        pattern.append(self.title.as_str());
        pattern.append("%");
        pattern
    }
}

/// The tasks that a search found, unless it found none.
pub fn find_by_pattern(tasks: Vec<Task>) -> (res: Result<Vec<Task>, AppError>)
    ensures
        res == if tasks@.len() == 0 {
            Err::<Vec<Task>, AppError>(AppError::Task(TaskError::Empty))
        } else {
            Ok(tasks)
        },
{
    find_all(tasks)
}

/// The task that the task store found for `id`, or that none is there.
pub fn find_by_id(task: Option<Task>, id: i64) -> (res: Result<Task, AppError>)
    ensures
        res == match task {
            Some(task) => Ok::<Task, AppError>(task),
            None => Err(AppError::Task(TaskError::NotFound(id))),
        },
{
    match task {
        Some(task) => Ok(task),
        None => Err(AppError::Task(TaskError::NotFound(id))),
    }
}

} // verus!
