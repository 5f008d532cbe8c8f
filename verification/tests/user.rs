use copycat_code::error::ControllerError;
use copycat_code::flow::{Step, StoreAction, StoreEvent};
use copycat_code::reply::{HttpReply, ReplyBody};
use copycat_code::user::{
    UserController, UserModel, UserModelDto, UserService, UserServiceError, UserServiceResponse,
};

fn user() -> UserModel {
    UserModel {
        id: Some("user:1".to_string()),
        login: "ann".to_string(),
        email: "ann@example.org".to_string(),
        password: "hash".to_string(),
    }
}

fn text<T>(reply: &HttpReply<T>) -> (u16, String) {
    match &reply.body {
        ReplyBody::Text(t) => (reply.status, t.clone()),
        _ => panic!("not a text reply"),
    }
}

#[test]
fn user_error_messages() {
    assert_eq!(
        UserServiceError::UnauthorizedRequest.message(),
        "Try to get user data without authorization"
    );
    assert_eq!(UserServiceError::BadCreateRequest.message(), "Bad request to create user");
    assert_eq!(UserServiceError::UserNotFound.message(), "User not found");
}

#[test]
fn creation_request_stores_the_user() {
    let request = UserServiceResponse::Create {
        login: "ann".to_string(),
        email: "ann@example.org".to_string(),
        password: "pw".to_string(),
    };
    assert_eq!(
        UserController::start_creation(request),
        Step::Continue(
            (),
            StoreAction::CreateUser {
                user: UserModel {
                    id: None,
                    login: "ann".to_string(),
                    email: "ann@example.org".to_string(),
                    password: "pw".to_string(),
                },
            },
        )
    );
    let lookup = UserServiceResponse::GetByLogin { login: "ann".to_string() };
    assert_eq!(
        UserController::start_creation(lookup),
        Step::Finish(Err(ControllerError::User(UserServiceError::BadCreateRequest)))
    );
    assert_eq!(UserController::step_creation(StoreEvent::Stored(Ok(()))), Step::Finish(Ok(())));
    assert_eq!(
        UserController::step_creation(StoreEvent::Stored(Err("db".to_string()))),
        Step::Finish(Err(ControllerError::Other("db".to_string())))
    );
}

#[test]
fn lookup_starts_from_the_session() {
    assert_eq!(
        UserController::start_lookup(Ok(Some("ann".to_string()))),
        Step::Continue((), StoreAction::FindUser { login: "ann".to_string() })
    );
    assert_eq!(
        UserController::start_lookup(Ok(None)),
        Step::Finish(Err(ControllerError::User(UserServiceError::UnauthorizedRequest)))
    );
    assert_eq!(
        UserController::start_lookup(Err("bad cookie".to_string())),
        Step::Finish(Err(ControllerError::Other("bad cookie".to_string())))
    );
}

#[test]
fn lookup_ends_with_the_user_found() {
    assert_eq!(UserController::step_lookup(StoreEvent::UserFound(Ok(Some(user())))), Step::Finish(Ok(user())));
    assert_eq!(
        UserController::step_lookup(StoreEvent::UserFound(Ok(None))),
        Step::Finish(Err(ControllerError::User(UserServiceError::UserNotFound)))
    );
    assert_eq!(
        UserController::step_lookup(StoreEvent::UserFound(Err("db down".to_string()))),
        Step::Finish(Err(ControllerError::User(UserServiceError::UnauthorizedRequest)))
    );
}

#[test]
fn creation_replies() {
    assert_eq!(text(&UserController::creation_reply(&Ok(()))), (202, "User created successful".to_string()));
    let bad = Err(ControllerError::User(UserServiceError::BadCreateRequest));
    assert_eq!(text(&UserController::creation_reply(&bad)), (400, "Bad request to create user".to_string()));
    let other = Err(ControllerError::User(UserServiceError::UserNotFound));
    let reply = UserController::creation_reply(&other);
    assert_eq!(reply.status, 500);
    assert_eq!(reply.body, ReplyBody::Empty);
}

#[test]
fn lookup_replies() {
    let reply = UserController::lookup_reply(Ok(user()));
    assert_eq!(reply, HttpReply { status: 202, body: ReplyBody::Json(user()) });
    let unauthorized = UserController::lookup_reply(Err(ControllerError::User(UserServiceError::UnauthorizedRequest)));
    assert_eq!(text(&unauthorized), (401, "Try to get user data without authorization".to_string()));
    let missing = UserController::lookup_reply(Err(ControllerError::User(UserServiceError::UserNotFound)));
    assert_eq!(text(&missing), (404, "User not found".to_string()));
    let other = UserController::lookup_reply(Err(ControllerError::User(UserServiceError::BadCreateRequest)));
    assert_eq!(other, HttpReply { status: 500, body: ReplyBody::Empty });
}

#[test]
fn user_queries_and_records() {
    let query = UserService::find_by_login("ann");
    assert_eq!(query.text, "SELECT * FROM user WHERE login = $login");
    assert_eq!(query.param, "login");
    assert_eq!(query.value, "ann");
    assert!(!query.record);
    let created = UserService::new_user(UserModelDto {
        login: "ann".to_string(),
        email: "e".to_string(),
        password: "p".to_string(),
    });
    assert_eq!(
        created,
        UserModel { id: None, login: "ann".to_string(), email: "e".to_string(), password: "p".to_string() }
    );
}
