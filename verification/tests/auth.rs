use copycat_code::auth::{AuthController, AuthError, AuthRequest, LoginState, RegistrationState, UserSession};
use copycat_code::flow::{Step, StoreAction, StoreEvent};
use copycat_code::error::ControllerError;
use copycat_code::password::hash_password;
use copycat_code::reply::{HttpReply, ReplyBody};
use copycat_code::user::UserModel;

fn stored(login: &str, password: &str, id: Option<&str>) -> UserModel {
    UserModel {
        id: id.map(|s| s.to_string()),
        login: login.to_string(),
        email: format!("{}@example.org", login),
        password: hash_password(password),
    }
}

fn text(reply: &HttpReply<()>) -> (u16, String) {
    match &reply.body {
        ReplyBody::Text(t) => (reply.status, t.clone()),
        _ => panic!("not a text reply"),
    }
}

#[test]
fn auth_error_messages() {
    assert_eq!(AuthError::LoginAlreadyExists.message(), "Login already exists");
    assert_eq!(AuthError::LoginIsInvalid.message(), "Login is invalid");
    assert_eq!(AuthError::PasswordIsInvalid.message(), "Password is invalid");
    assert_eq!(AuthError::BadRequest.message(), "Bad request");
}

fn register_request() -> AuthRequest {
    AuthRequest::Registration {
        login: "ann".to_string(),
        password: "pw".to_string(),
        email: "ann@example.org".to_string(),
    }
}

fn looking_up() -> RegistrationState {
    RegistrationState::LookingUp {
        login: "ann".to_string(),
        password: "pw".to_string(),
        email: "ann@example.org".to_string(),
    }
}

#[test]
fn registration_starts_with_a_lookup() {
    assert_eq!(
        AuthController::start_registration(register_request()),
        Step::Continue(looking_up(), StoreAction::FindUser { login: "ann".to_string() })
    );
    let login = AuthRequest::Login { login: "ann".to_string(), password: "pw".to_string() };
    assert_eq!(
        AuthController::start_registration(login),
        Step::Finish(Err(ControllerError::Auth(AuthError::BadRequest)))
    );
}

#[test]
fn registration_stores_the_hash() {
    let step = AuthController::step_registration(looking_up(), StoreEvent::UserFound(Ok(None)));
    assert_eq!(
        step,
        Step::Continue(
            RegistrationState::Creating { login: "ann".to_string() },
            StoreAction::CreateUser {
                user: UserModel {
                    id: None,
                    login: "ann".to_string(),
                    email: "ann@example.org".to_string(),
                    password: hash_password("pw"),
                },
            },
        )
    );
}

#[test]
fn registration_refuses_a_taken_login() {
    let existing = stored("ann", "other", Some("user:1"));
    assert_eq!(
        AuthController::step_registration(looking_up(), StoreEvent::UserFound(Ok(Some(existing)))),
        Step::Finish(Err(ControllerError::Auth(AuthError::LoginAlreadyExists)))
    );
    assert_eq!(
        AuthController::step_registration(looking_up(), StoreEvent::UserFound(Err("db".to_string()))),
        Step::Finish(Err(ControllerError::Other("db".to_string())))
    );
}

#[test]
fn registration_reads_the_account_back_into_the_session() {
    let creating = RegistrationState::Creating { login: "ann".to_string() };
    assert_eq!(
        AuthController::step_registration(creating, StoreEvent::Stored(Ok(()))),
        Step::Continue(RegistrationState::Fetching, StoreAction::FindUser { login: "ann".to_string() })
    );
    let creating = RegistrationState::Creating { login: "ann".to_string() };
    assert_eq!(
        AuthController::step_registration(creating, StoreEvent::Stored(Err("full".to_string()))),
        Step::Finish(Err(ControllerError::Other("full".to_string())))
    );
    let account = stored("ann", "pw", Some("user:42"));
    assert_eq!(
        AuthController::step_registration(RegistrationState::Fetching, StoreEvent::UserFound(Ok(Some(account)))),
        Step::Finish(Ok(UserSession {
            login: "ann".to_string(),
            email: "ann@example.org".to_string(),
            id: "user:42".to_string(),
        }))
    );
}

#[test]
fn registered_password_signs_in() {
    let user = match AuthController::step_registration(looking_up(), StoreEvent::UserFound(Ok(None))) {
        Step::Continue(_, StoreAction::CreateUser { user }) => user,
        other => panic!("unexpected step {:?}", other),
    };
    let stored_user = UserModel { id: Some("user:7".to_string()), ..user };
    let login = AuthRequest::Login { login: "ann".to_string(), password: "pw".to_string() };
    let state = match AuthController::start_login(login) {
        Step::Continue(state, StoreAction::FindUser { login }) => {
            assert_eq!(login, "ann");
            state
        },
        other => panic!("unexpected step {:?}", other),
    };
    let step = AuthController::step_login(state, StoreEvent::UserFound(Ok(Some(stored_user))));
    assert!(matches!(step, Step::Finish(Ok(session)) if session.id == "user:7"));
}

#[test]
fn sign_in_refusals() {
    let registration = AuthRequest::Registration {
        login: "ann".to_string(),
        password: "pw".to_string(),
        email: "e".to_string(),
    };
    assert_eq!(
        AuthController::start_login(registration),
        Step::Finish(Err(ControllerError::Auth(AuthError::BadRequest)))
    );
    let state = || LoginState { password: "pw".to_string() };
    assert_eq!(
        AuthController::step_login(state(), StoreEvent::UserFound(Ok(None))),
        Step::Finish(Err(ControllerError::Auth(AuthError::LoginIsInvalid)))
    );
    let wrong = LoginState { password: "wrong".to_string() };
    assert_eq!(
        AuthController::step_login(wrong, StoreEvent::UserFound(Ok(Some(stored("ann", "pw", None))))),
        Step::Finish(Err(ControllerError::Auth(AuthError::PasswordIsInvalid)))
    );
    // The stored text is the hash: giving the hash itself as password fails.
    let user = stored("ann", "pw", Some("user:1"));
    let as_hash = LoginState { password: user.password.clone() };
    assert_eq!(
        AuthController::step_login(as_hash, StoreEvent::UserFound(Ok(Some(user)))),
        Step::Finish(Err(ControllerError::Auth(AuthError::PasswordIsInvalid)))
    );
    assert_eq!(
        AuthController::step_login(state(), StoreEvent::UserFound(Err("down".to_string()))),
        Step::Finish(Err(ControllerError::Other("down".to_string())))
    );
}

#[test]
fn checked_sign_in_stops_on_an_account_without_id() {
    let state = || LoginState { password: "pw".to_string() };
    assert_eq!(
        AuthController::step_login_checked(state(), StoreEvent::UserFound(Ok(Some(stored("ann", "pw", None))))),
        None
    );
    assert_eq!(
        AuthController::step_login_checked(state(), StoreEvent::UserFound(Ok(Some(stored("ann", "other", None))))),
        Some(Step::Finish(Err(ControllerError::Auth(AuthError::PasswordIsInvalid))))
    );
    assert!(matches!(
        AuthController::step_login_checked(state(), StoreEvent::UserFound(Ok(Some(stored("ann", "pw", Some("user:3")))))),
        Some(Step::Finish(Ok(session))) if session.id == "user:3"
    ));
}

#[test]
fn session_holds_login_email_and_id() {
    let session = AuthController::session_for(stored("ann", "pw", Some("user:abc")));
    assert_eq!(
        session,
        UserSession {
            login: "ann".to_string(),
            email: "ann@example.org".to_string(),
            id: "user:abc".to_string(),
        }
    );
}

#[test]
fn controller_error_messages() {
    assert_eq!(ControllerError::Auth(AuthError::BadRequest).message(), "Bad request");
    assert_eq!(ControllerError::Other("lost connection".to_string()).message(), "lost connection");
}

#[test]
fn registration_replies() {
    assert_eq!(text(&AuthController::registration_reply(&Ok(()))), (202, String::new()));
    let taken = Err(ControllerError::Auth(AuthError::LoginAlreadyExists));
    assert_eq!(
        text(&AuthController::registration_reply(&taken)),
        (400, "Login already exists".to_string())
    );
    let db = Err(ControllerError::Other("connection lost".to_string()));
    assert_eq!(text(&AuthController::registration_reply(&db)), (400, "connection lost".to_string()));
}

#[test]
fn login_replies() {
    assert_eq!(text(&AuthController::login_reply(&Ok(()))), (202, "Login success".to_string()));
    for (error, message) in [
        (AuthError::LoginIsInvalid, "Login is invalid"),
        (AuthError::PasswordIsInvalid, "Password is invalid"),
        (AuthError::BadRequest, "Bad request"),
    ] {
        let reply = AuthController::login_reply(&Err(ControllerError::Auth(error)));
        assert_eq!(text(&reply), (400, message.to_string()));
    }
    let taken = Err(ControllerError::Auth(AuthError::LoginAlreadyExists));
    assert_eq!(text(&AuthController::login_reply(&taken)), (500, "Login already exists".to_string()));
    let db = Err(ControllerError::Other("timeout".to_string()));
    assert_eq!(text(&AuthController::login_reply(&db)), (500, "timeout".to_string()));
}

#[test]
fn logout_replies() {
    assert_eq!(text(&AuthController::logout_reply(&Ok(()))), (202, "Logout success".to_string()));
    let failed = Err(ControllerError::Other("store down".to_string()));
    assert_eq!(text(&AuthController::logout_reply(&failed)), (400, "store down".to_string()));
}
