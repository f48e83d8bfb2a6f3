use task_auth::errors::AppError;
use task_auth::session::{Session, Slot};
use task_auth::tasks::errors::TaskError;
use task_auth::tasks::models::Task;
use task_auth::tasks::routes::{favorite, favorited, find_favorite, FavoriteStep};
use task_auth::users::errors::UserError;
use task_auth::users::models::{InsertUser, LoggedUser, LoginUser, User};
use task_auth::users::routes::{create_auth_token, login, login_answer, logout};
use task_auth::validator;

/// A user store for the scenarios: what the service asks of a store, on a list.
struct Users {
    rows: Vec<User>,
}

impl Users {
    fn register(&mut self, command: InsertUser) -> User {
        let user = User {
            id: self.rows.len() as i64 + 1,
            username: command.valid_username,
            password: command.valid_password,
        };
        self.rows.push(user.clone());
        user
    }

    fn matching(&self, credentials: &LoginUser) -> Option<User> {
        self.rows
            .iter()
            .find(|u| u.username == credentials.username && u.password == credentials.password)
            .cloned()
    }
}

fn credentials(name: &str, password: &str) -> LoginUser {
    LoginUser { username: name.to_string(), password: password.to_string() }
}

#[test]
fn register_login_and_favorite() {
    let mut users = Users { rows: Vec::new() };
    let mut session = Session::new();

    let command = InsertUser::from_request(Ok(InsertUser {
        valid_username: "yusuke".to_string(),
        valid_password: "toguro".to_string(),
    }))
    .unwrap();
    let registered = users.register(command);

    let found = users.matching(&credentials("yusuke", "toguro"));
    let logged: LoggedUser = login(&mut session, found).unwrap();
    assert_eq!(logged.id, registered.id);
    assert_eq!(logged.token, create_auth_token(&registered));
    let answer = login_answer(logged.clone());
    assert_eq!(answer.status, 200);
    assert_eq!(answer.body, logged);
    let bearer = answer.auth_token;
    assert_eq!(bearer, logged.token.to_string());

    assert_eq!(validator("POST /favorite/42", &session, Some(bearer.as_str())), Ok("POST /favorite/42"));
    let stored = Task { id: 42, title: "Re-watch Cowboy Bebop".to_string(), details: "Good show.".to_string() };
    let settled = match favorite(&mut session, 42) {
        FavoriteStep::Lookup(lookup) => {
            assert_eq!(lookup.id, 42);
            lookup.settle(&mut session, Some(stored.clone()))
        }
        other => panic!("{:?}", other),
    };
    assert_eq!(settled, Ok(stored.clone()));
    let answer = favorited(settled.unwrap());
    assert_eq!(answer.status, 302);
    assert_eq!(answer.body, stored);
    assert_eq!(session.favorite_task, Slot::Filled(stored.clone()));
    assert_eq!(session.identity, Slot::Filled(logged));
    assert_eq!(find_favorite(&session), Ok(stored));
}

#[test]
fn unknown_user_cannot_log_in() {
    let mut users = Users { rows: Vec::new() };
    users.register(InsertUser {
        valid_username: "yusuke".to_string(),
        valid_password: "toguro".to_string(),
    });
    let mut session = Session::new();
    for attempt in [
        credentials("yusuke", "sensui"),
        credentials("kuwabara", "toguro"),
        credentials("", ""),
    ] {
        let res = login(&mut session, users.matching(&attempt));
        assert_eq!(res, Err(AppError::User(UserError::LoginFailed)));
        assert_eq!(res.unwrap_err().status_code(), 401);
        assert_eq!(session, Session::new());
    }
}

#[test]
fn request_after_logout_is_rejected() {
    let mut users = Users { rows: Vec::new() };
    users.register(InsertUser {
        valid_username: "spike".to_string(),
        valid_password: "vicious".to_string(),
    });
    let mut session = Session::new();
    let logged = login(&mut session, users.matching(&credentials("spike", "vicious"))).unwrap();
    let bearer = logged.bearer();
    assert!(validator((), &session, Some(bearer.as_str())).is_ok());
    logout(&mut session);
    let res = validator((), &session, Some(bearer.as_str()));
    assert_eq!(res, Err(AppError::User(UserError::NotLoggedIn)));
    assert_eq!(res.unwrap_err().status_code(), 401);
}

#[test]
fn second_login_replaces_the_first() {
    let mut session = Session::new();
    let first = login(
        &mut session,
        Some(User { id: 1, username: "yusuke".to_string(), password: "toguro".to_string() }),
    )
    .unwrap();
    let second = login(
        &mut session,
        Some(User { id: 2, username: "spike".to_string(), password: "vicious".to_string() }),
    )
    .unwrap();
    assert_ne!(first.token, second.token);
    assert_eq!(
        validator((), &session, Some(first.bearer().as_str())),
        Err(AppError::User(UserError::InvalidToken))
    );
    assert_eq!(validator((), &session, Some(second.bearer().as_str())), Ok(()));
}

#[test]
fn favorite_of_nothing_is_none() {
    let session = Session::new();
    assert_eq!(find_favorite(&session), Err(AppError::Task(TaskError::NoneFavorite)));
}
