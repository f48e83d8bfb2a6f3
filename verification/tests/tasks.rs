use task_auth::errors::{AppError, PayloadError};
use task_auth::extract::{admit_announced, admit_body, JSON_LIMIT};
use task_auth::session::{Session, Slot};
use task_auth::tasks::errors::TaskError;
use task_auth::tasks::list::TaskList;
use task_auth::tasks::models::{InsertTask, QueryTask, Task, UpdateTask};
use task_auth::reply::Answer;
use task_auth::tasks::routes::{
    delete, done, favorite, favorited, find_all, find_by_id, find_by_pattern, find_favorite,
    find_ongoing, undo, unfavorited, update, FavoriteStep, Lookup,
};
use task_auth::users::models::User;
use task_auth::users::routes::login;

fn task(id: i64, title: &str, details: &str) -> Task {
    Task { id, title: title.to_string(), details: details.to_string() }
}

fn insert_task(title: &str, details: &str) -> InsertTask {
    InsertTask { non_empty_title: title.to_string(), details: details.to_string() }
}

fn update_task(id: i64, title: &str, details: &str) -> UpdateTask {
    UpdateTask { id, new_title: title.to_string(), details: details.to_string() }
}

/// One whole request to favorite `id`, against a store that holds `stored`.
fn favorite_request(session: &mut Session, id: i64, stored: &[Task]) -> Result<Option<Task>, AppError> {
    match favorite(session, id) {
        FavoriteStep::Unfavorited(_) => Ok(None),
        FavoriteStep::Failed(error) => Err(error),
        FavoriteStep::Lookup(lookup) => {
            let found = stored.iter().find(|t| t.id == lookup.id).cloned();
            lookup.settle(session, found).map(Some)
        }
    }
}

#[test]
fn test_task_insert_valid_task() {
    let res = insert_task("Re-watch Cowboy Bebop", "Good show.").validate();
    assert_eq!(res, Ok(insert_task("Re-watch Cowboy Bebop", "Good show.")));
}

#[test]
fn test_task_insert_invalid_task_title() {
    let res = insert_task(" \n\t", "Good show.").validate();
    assert_eq!(res, Err(TaskError::EmptyTitle));
}

#[test]
fn test_task_update_valid_task() {
    let res = update_task(1, "Re-watch Cowboy Bebop, and Yu Yu Hakusho", "Good show. Classic.").validate();
    assert_eq!(res, Ok(update_task(1, "Re-watch Cowboy Bebop, and Yu Yu Hakusho", "Good show. Classic.")));
}

#[test]
fn test_task_update_with_invalid_task_title() {
    let res = update_task(1, " \n\t", "Good show. Classic.").validate();
    assert_eq!(res, Err(TaskError::EmptyTitle));
}

#[test]
fn blank_title_is_rejected_before_anything_else_happens() {
    let decoded = InsertTask { non_empty_title: "   \n\t".to_string(), details: "x".to_string() };
    let res = InsertTask::from_request(Ok(decoded));
    assert_eq!(res, Err(AppError::Task(TaskError::EmptyTitle)));
    assert_eq!(res.unwrap_err().status_code(), 422);
}

#[test]
fn details_may_be_blank() {
    assert_eq!(insert_task("title", "").validate(), Ok(insert_task("title", "")));
    assert_eq!(update_task(1, "title", " ").validate(), Ok(update_task(1, "title", " ")));
}

#[test]
fn task_commands_from_request() {
    assert_eq!(
        InsertTask::from_request(Ok(insert_task("a", "b"))),
        Ok(insert_task("a", "b"))
    );
    assert_eq!(
        InsertTask::from_request(Err(PayloadError::Deserialize("missing field".to_string()))),
        Err(AppError::Payload(PayloadError::Deserialize("missing field".to_string())))
    );
    assert_eq!(
        UpdateTask::from_request(Ok(update_task(1, "a", "b"))),
        Ok(update_task(1, "a", "b"))
    );
    assert_eq!(
        UpdateTask::from_request(Ok(update_task(1, "", "b"))),
        Err(AppError::Task(TaskError::EmptyTitle))
    );
    assert_eq!(
        UpdateTask::from_request(Err(PayloadError::Overflow { limit: JSON_LIMIT })),
        Err(AppError::Payload(PayloadError::Overflow { limit: 4056 }))
    );
}

#[test]
fn body_limit() {
    assert_eq!(JSON_LIMIT, 4056);
    assert_eq!(admit_body(&[]), Ok(()));
    assert_eq!(admit_body(&vec![b' '; 4056]), Ok(()));
    assert_eq!(
        admit_body(&vec![b' '; 4057]),
        Err(AppError::Payload(PayloadError::Overflow { limit: 4056 }))
    );
    assert_eq!(admit_announced(None), Ok(()));
    assert_eq!(admit_announced(Some(0)), Ok(()));
    assert_eq!(admit_announced(Some(4056)), Ok(()));
    assert_eq!(
        admit_announced(Some(4057)),
        Err(AppError::Payload(PayloadError::OverflowKnownLength { length: 4057, limit: 4056 }))
    );
    assert_eq!(admit_announced(Some(4057)).unwrap_err().status_code(), 413);
}

#[test]
fn test_task_favorite() {
    let mut session = Session::new();
    let step = favorite(&mut session, 42);
    assert_eq!(step, FavoriteStep::Lookup(Lookup { id: 42, miss: TaskError::NoneFavorite }));
    let lookup = Lookup { id: 42, miss: TaskError::NoneFavorite };
    let res = lookup.settle(&mut session, Some(task(42, "Re-watch Cowboy Bebop", "Good show.")));
    assert_eq!(res, Ok(task(42, "Re-watch Cowboy Bebop", "Good show.")));
    assert_eq!(session.favorite_task, Slot::Filled(task(42, "Re-watch Cowboy Bebop", "Good show.")));
}

#[test]
fn test_task_find_favorite() {
    let mut session = Session::new();
    let stored = [task(1, "one", "first")];
    assert_eq!(favorite_request(&mut session, 1, &stored), Ok(Some(task(1, "one", "first"))));
    assert_eq!(find_favorite(&session), Ok(task(1, "one", "first")));
    assert_eq!(find_favorite(&session), Ok(task(1, "one", "first")));
    assert_eq!(session.favorite_task, Slot::Filled(task(1, "one", "first")));
}

#[test]
fn find_favorite_on_an_empty_slot() {
    let session = Session::new();
    let res = find_favorite(&session);
    assert_eq!(res, Err(AppError::Task(TaskError::NoneFavorite)));
    assert_eq!(res.unwrap_err().status_code(), 404);
    assert_eq!(session, Session::new());
}

#[test]
fn find_favorite_on_an_unreadable_slot() {
    let session =
        Session { identity: Slot::Empty, favorite_task: Slot::Unreadable("EOF".to_string()) };
    assert_eq!(
        find_favorite(&session),
        Err(AppError::Actix { status: 500, text: "EOF".to_string() })
    );
}

#[test]
fn find_favorite_does_not_ask_the_store_again() {
    let mut session = Session::new();
    let stored = [task(1, "one", "first")];
    favorite_request(&mut session, 1, &stored).unwrap();
    // The store may change; the session keeps what it was given.
    assert_eq!(find_favorite(&session), Ok(task(1, "one", "first")));
}

#[test]
fn favorite_twice_clears_the_slot() {
    let mut session = Session::new();
    let stored = [task(1, "one", "first"), task(2, "two", "second")];
    assert_eq!(favorite_request(&mut session, 1, &stored), Ok(Some(task(1, "one", "first"))));
    assert_eq!(favorite(&mut session, 1), FavoriteStep::Unfavorited(1));
    assert_eq!(session.favorite_task, Slot::Empty);
    assert_eq!(find_favorite(&session), Err(AppError::Task(TaskError::NoneFavorite)));
}

#[test]
fn favorite_another_replaces_the_first() {
    let mut session = Session::new();
    let stored = [task(1, "one", "first"), task(2, "two", "second")];
    favorite_request(&mut session, 1, &stored).unwrap();
    assert_eq!(
        favorite(&mut session, 2),
        FavoriteStep::Lookup(Lookup { id: 2, miss: TaskError::NotFound(2) })
    );
    // Until the store has answered the first is still the favorite.
    assert_eq!(session.favorite_task, Slot::Filled(task(1, "one", "first")));
    let res = Lookup { id: 2, miss: TaskError::NotFound(2) }.settle(&mut session, Some(task(2, "two", "second")));
    assert_eq!(res, Ok(task(2, "two", "second")));
    assert_eq!(session.favorite_task, Slot::Filled(task(2, "two", "second")));
    assert_eq!(find_favorite(&session), Ok(task(2, "two", "second")));
}

#[test]
fn favorite_a_missing_task_with_no_favorite() {
    let mut session = Session::new();
    let res = favorite_request(&mut session, 9, &[]);
    assert_eq!(res, Err(AppError::Task(TaskError::NoneFavorite)));
    assert_eq!(session.favorite_task, Slot::Empty);
}

#[test]
fn favorite_a_missing_task_with_another_favorite() {
    let mut session = Session::new();
    let stored = [task(1, "one", "first")];
    favorite_request(&mut session, 1, &stored).unwrap();
    let res = favorite_request(&mut session, 9, &stored);
    assert_eq!(res, Err(AppError::Task(TaskError::NotFound(9))));
    assert_eq!(res.unwrap_err().status_code(), 404);
    // The request failed, so the favorite is what it was.
    assert_eq!(session.favorite_task, Slot::Filled(task(1, "one", "first")));
    assert_eq!(find_favorite(&session), Ok(task(1, "one", "first")));
}

#[test]
fn favorite_with_an_unreadable_slot() {
    let mut session =
        Session { identity: Slot::Empty, favorite_task: Slot::Unreadable("EOF".to_string()) };
    assert_eq!(favorite(&mut session, 1), FavoriteStep::Failed(AppError::Json("EOF".to_string())));
    assert_eq!(session.favorite_task, Slot::Empty);
}

#[test]
fn favorite_keeps_the_identity() {
    let mut session = Session::new();
    let account = User { id: 1, username: "yusuke".to_string(), password: "toguro".to_string() };
    let logged = login(&mut session, Some(account)).unwrap();
    let stored = [task(1, "one", "first")];
    favorite_request(&mut session, 1, &stored).unwrap();
    assert_eq!(session.identity, Slot::Filled(logged.clone()));
    favorite_request(&mut session, 1, &stored).unwrap();
    assert_eq!(session.identity, Slot::Filled(logged.clone()));
    let _ = favorite_request(&mut session, 5, &stored);
    assert_eq!(session.identity, Slot::Filled(logged));
}

#[test]
fn settle_without_a_task_keeps_the_session() {
    let mut session =
        Session { identity: Slot::Empty, favorite_task: Slot::Filled(task(1, "one", "first")) };
    let res = Lookup { id: 2, miss: TaskError::NotFound(2) }.settle(&mut session, None);
    assert_eq!(res, Err(AppError::Task(TaskError::NotFound(2))));
    assert_eq!(session.favorite_task, Slot::Filled(task(1, "one", "first")));
}

#[test]
fn unfavorited_reply_has_no_body() {
    let reply = unfavorited();
    assert_eq!(reply.status, 204);
    assert_eq!(reply.body, "");
}

#[test]
fn favorited_answer_is_the_task_found() {
    let answer = favorited(task(42, "Re-watch Cowboy Bebop", "Good show."));
    assert_eq!(answer.status, 302);
    assert_eq!(answer.body, task(42, "Re-watch Cowboy Bebop", "Good show."));
}

#[test]
fn answers_with_a_value() {
    assert_eq!(Answer::created(7u8), Answer { status: 201, body: 7u8 });
    assert_eq!(Answer::found("x"), Answer { status: 302, body: "x" });
}

#[test]
fn test_task_delete_existing_task() {
    let reply = delete(1);
    assert_eq!(reply.status, 200);
    assert_eq!(reply.body, "Deleted 1 tasks.");
}

#[test]
fn test_task_delete_non_existent_task() {
    let reply = delete(0);
    assert_eq!(reply.status, 304);
    assert_eq!(reply.body, "No tasks were deleted.");
}

#[test]
fn task_update_replies() {
    let reply = update(0);
    assert_eq!(reply.status, 304);
    assert_eq!(reply.body, "No tasks were updated.");
    let reply = update(3);
    assert_eq!(reply.status, 200);
    assert_eq!(reply.body, "Updated 3 tasks.");
}

#[test]
fn test_task_mark_as_done() {
    let reply = done(17, 4);
    assert_eq!(reply.status, 201);
    assert_eq!(reply.body, "17");
    let reply = done(0, 4);
    assert_eq!(reply.status, 304);
    assert_eq!(reply.body, "Task with id 4 not done.");
}

#[test]
fn test_task_undo() {
    let reply = undo(1, 4);
    assert_eq!(reply.status, 200);
    assert_eq!(reply.body, "Undone 1 tasks.");
    let reply = undo(0, 4);
    assert_eq!(reply.status, 304);
    assert_eq!(reply.body, "Task with id 4 not undone.");
}

#[test]
fn test_task_find_all() {
    assert_eq!(find_all(Vec::new()), Err(AppError::Task(TaskError::Empty)));
    let tasks = vec![task(1, "one", "first"), task(2, "two", "second")];
    assert_eq!(find_all(tasks.clone()), Ok(tasks));
}

#[test]
fn test_task_ongoing_tasks() {
    assert_eq!(find_ongoing(Vec::new()), Err(AppError::Task(TaskError::Empty)));
    let tasks = vec![task(2, "two", "second")];
    assert_eq!(find_ongoing(tasks.clone()), Ok(tasks));
}

#[test]
fn test_task_find_by_pattern() {
    let query = QueryTask { title: "Watch".to_string(), details: ".".to_string() };
    assert_eq!(query.search_pattern(), "%Watch%");
    assert_eq!(find_by_pattern(Vec::new()), Err(AppError::Task(TaskError::Empty)));
    let tasks = vec![task(1, "Re-Watch", "Good show.")];
    assert_eq!(find_by_pattern(tasks.clone()), Ok(tasks));
}

#[test]
fn test_task_find_by_id() {
    assert_eq!(find_by_id(Some(task(1, "one", "first")), 1), Ok(task(1, "one", "first")));
    assert_eq!(find_by_id(None, 1000), Err(AppError::Task(TaskError::NotFound(1000))));
}

#[test]
fn list_gives_ids_in_order() {
    let mut list = TaskList::new();
    assert_eq!(list.len(), 0);
    assert_eq!(list.insert(insert_task("one", "first")), Ok(task(0, "one", "first")));
    assert_eq!(list.insert(insert_task("two", "second")), Ok(task(1, "two", "second")));
    assert_eq!(list.insert(insert_task(" ", "blank")), Err(TaskError::EmptyTitle));
    assert_eq!(list.insert(insert_task("three", "third")), Ok(task(2, "three", "third")));
    assert_eq!(list.len(), 3);
    assert_eq!(
        list.find_all(),
        vec![task(0, "one", "first"), task(1, "two", "second"), task(2, "three", "third")]
    );
}

#[test]
fn list_finds_by_id() {
    let mut list = TaskList::new();
    list.insert(insert_task("one", "first")).unwrap();
    list.insert(insert_task("two", "second")).unwrap();
    assert_eq!(list.find_by_id(1), Ok(task(1, "two", "second")));
    assert_eq!(list.find_by_id(0), Ok(task(0, "one", "first")));
    assert_eq!(list.find_by_id(2), Err(TaskError::NotFound(2)));
    assert_eq!(list.find_by_id(-1), Err(TaskError::NotFound(-1)));
}

#[test]
fn list_deletes_and_never_reuses_an_id() {
    let mut list = TaskList::new();
    list.insert(insert_task("one", "first")).unwrap();
    list.insert(insert_task("two", "second")).unwrap();
    list.insert(insert_task("three", "third")).unwrap();
    assert_eq!(list.delete(1), Ok(task(1, "two", "second")));
    assert_eq!(list.find_all(), vec![task(0, "one", "first"), task(2, "three", "third")]);
    assert_eq!(list.delete(1), Err(TaskError::NotFound(1)));
    assert_eq!(list.len(), 2);
    assert_eq!(list.insert(insert_task("four", "fourth")), Ok(task(3, "four", "fourth")));
}

#[test]
fn list_updates_in_place() {
    let mut list = TaskList::new();
    list.insert(insert_task("one", "first")).unwrap();
    list.insert(insert_task("two", "second")).unwrap();
    assert_eq!(list.update(update_task(0, "uno", "primero")), Ok(task(0, "uno", "primero")));
    assert_eq!(list.find_all(), vec![task(0, "uno", "primero"), task(1, "two", "second")]);
    assert_eq!(list.update(update_task(0, "\t", "x")), Err(TaskError::EmptyTitle));
    assert_eq!(list.update(update_task(9, "\t", "x")), Err(TaskError::EmptyTitle));
    assert_eq!(list.update(update_task(9, "nine", "x")), Err(TaskError::NotFound(9)));
    assert_eq!(list.find_all(), vec![task(0, "uno", "primero"), task(1, "two", "second")]);
}

#[test]
fn inserted_task_has_the_id_of_its_row() {
    let stored = insert_task("Re-watch Cowboy Bebop", "Good show.").inserted(7);
    assert_eq!(stored, task(7, "Re-watch Cowboy Bebop", "Good show."));
}
