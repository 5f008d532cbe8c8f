//! Registration, sign-in and sign-out.

use crate::error::ControllerError;
use crate::flow::{Step, StoreAction, StoreEvent};
use crate::password::{
    base64_standard, hash_password, lemma_base64_injective, lemma_password_digest_is_base64_of_whirlpool,
    password_digest, password_matches, whirlpool_digest,
};
use crate::reply::{HttpReply, ACCEPTED, BAD_REQUEST, INTERNAL_SERVER_ERROR};
use crate::user::UserModel;
use vstd::prelude::*;
use vstd::utf8::encode_utf8;

verus! {

/// A request to the authentication endpoints.
#[derive(Debug, PartialEq, Eq)]
pub enum AuthRequest {
    Registration { login: String, password: String, email: String },
    Login { login: String, password: String },
}

/// Why an authentication endpoint refused a request.
#[derive(Debug, PartialEq, Eq)]
pub enum AuthError {
    LoginAlreadyExists,
    LoginIsInvalid,
    PasswordIsInvalid,
    BadRequest,
}

impl AuthError {
    /// The text of the error.
    pub open spec fn text(&self) -> Seq<char> {
        match self {
            AuthError::LoginAlreadyExists => "Login already exists"@,
            AuthError::LoginIsInvalid => "Login is invalid"@,
            AuthError::PasswordIsInvalid => "Password is invalid"@,
            AuthError::BadRequest => "Bad request"@,
        }
    }

    /// The text of the error, as it is shown to a client.
    pub fn message(&self) -> (message: String)
        ensures
            message@ == self.text(),
    {
        match self {
            AuthError::LoginAlreadyExists => "Login already exists".to_owned(),
            AuthError::LoginIsInvalid => "Login is invalid".to_owned(),
            AuthError::PasswordIsInvalid => "Password is invalid".to_owned(),
            AuthError::BadRequest => "Bad request".to_owned(),
        }
    }
}

/// What a successful registration or sign-in writes into the session, under
/// the keys `login`, `email` and `id`.
#[derive(Debug, PartialEq, Eq)]
pub struct UserSession {
    pub login: String,
    pub email: String,
    pub id: String,
}

/// Whether a sign-in with `password` succeeds against the stored hash.
pub open spec fn login_accepted(stored: Seq<char>, password: Seq<char>) -> bool {
    stored == password_digest(password)
}

/// The session written for a signed-in user: the user's login, email and id.
pub open spec fn session_of(session: UserSession, user: UserModel) -> bool {
    &&& session.login == user.login
    &&& session.email == user.email
    &&& session.id == user.id->Some_0
}

/// Where a registration stands between two calls to the store.
#[derive(Debug, PartialEq, Eq)]
pub enum RegistrationState {
    /// Looking up whether the login is taken.
    LookingUp { login: String, password: String, email: String },
    /// Storing the new account.
    Creating { login: String },
    /// Reading the stored account back.
    Fetching,
}

impl RegistrationState {
    /// At most how many calls to the store the request still makes, counting
    /// the one that led into this state.
    pub open spec fn calls_left(&self) -> nat {
        match self {
            RegistrationState::LookingUp { .. } => 3,
            RegistrationState::Creating { .. } => 2,
            RegistrationState::Fetching => 1,
        }
    }
}

/// The answers that a registration can be given in each state. Reading the new
/// account back must find it, with an id.
pub open spec fn registration_event_fits(state: RegistrationState, event: StoreEvent) -> bool {
    match state {
        RegistrationState::LookingUp { .. } => event is UserFound,
        RegistrationState::Creating { .. } => event is Stored,
        RegistrationState::Fetching => {
            &&& event is UserFound
            &&& (event matches StoreEvent::UserFound(Ok(found)) ==> found matches Some(user)
                && user.id is Some)
        },
    }
}

/// Where a sign-in stands while the account is looked up.
#[derive(Debug, PartialEq, Eq)]
pub struct LoginState {
    pub password: String,
}

/// The answers that a sign-in can be given: the account found, which must have
/// an id when the password is right.
pub open spec fn login_event_fits(state: LoginState, event: StoreEvent) -> bool {
    &&& event is UserFound
    &&& (event matches StoreEvent::UserFound(Ok(Some(user))) ==> (login_accepted(
        user.password@,
        state.password@,
    ) ==> user.id is Some))
}

/// How a sign-in ends on the account found: an unknown login and a wrong
/// password are refused; with the right password the user's login, email and
/// id go into the session. A failure of the store ends the sign-in.
pub open spec fn login_step(state: LoginState, event: StoreEvent, step: Step<LoginState, UserSession>) -> bool {
    match event {
        StoreEvent::UserFound(Err(failure)) => step.fails_with(failure@),
        StoreEvent::UserFound(Ok(None)) => step.refuses(ControllerError::Auth(AuthError::LoginIsInvalid)),
        StoreEvent::UserFound(Ok(Some(user))) => if login_accepted(user.password@, state.password@) {
            step matches Step::Finish(Ok(session)) && session_of(session, user)
        } else {
            step.refuses(ControllerError::Auth(AuthError::PasswordIsInvalid))
        },
        _ => false,
    }
}

/// The password is right for an account that has no id: the session cannot be
/// written, and the sign-in cannot go on.
pub open spec fn login_stuck(state: LoginState, event: StoreEvent) -> bool {
    &&& event matches StoreEvent::UserFound(Ok(Some(user)))
    &&& login_accepted(event->UserFound_0->Ok_0->Some_0.password@, state.password@)
    &&& event->UserFound_0->Ok_0->Some_0.id is None
}

/// The authentication endpoints.
#[derive(Debug, PartialEq, Eq)]
pub struct AuthController;

impl AuthController {
    /// Starts a registration: look up the login. A sign-in request is a bad
    /// request here.
    pub fn start_registration(request: AuthRequest) -> (step: Step<RegistrationState, UserSession>)
        ensures
            match request {
                AuthRequest::Registration { login, password, email } => step == Step::<
                    RegistrationState,
                    UserSession,
                >::Continue(
                    RegistrationState::LookingUp { login, password, email },
                    StoreAction::FindUser { login },
                ),
                AuthRequest::Login { .. } => step.refuses(ControllerError::Auth(AuthError::BadRequest)),
            },
    {
        match request {
            AuthRequest::Registration { login, password, email } => {
                let wanted = login.clone();
                Step::Continue(
                    RegistrationState::LookingUp { login, password, email },
                    StoreAction::FindUser { login: wanted },
                )
            },
            AuthRequest::Login { .. } => Step::Finish(Err(ControllerError::Auth(AuthError::BadRequest))),
        }
    }

    /// Goes on with a registration: a taken login is refused; otherwise the
    /// account is stored with the hash of the password, read back, and its
    /// login, email and id are written into the session. A failure of the store
    /// ends the registration.
    pub fn step_registration(state: RegistrationState, event: StoreEvent) -> (step: Step<
        RegistrationState,
        UserSession,
    >)
        requires
            registration_event_fits(state, event),
        ensures
            step matches Step::Continue(next, _) ==> next.calls_left() < state.calls_left(),
            match state {
                RegistrationState::LookingUp { login, password, email } => match event {
                    StoreEvent::UserFound(Err(failure)) => step.fails_with(failure@),
                    StoreEvent::UserFound(Ok(Some(_))) => step.refuses(
                        ControllerError::Auth(AuthError::LoginAlreadyExists),
                    ),
                    StoreEvent::UserFound(Ok(None)) => {
                        &&& step matches Step::Continue(
                            RegistrationState::Creating { login: next },
                            StoreAction::CreateUser { user },
                        )
                        &&& step->Continue_0 == RegistrationState::Creating { login }
                        &&& step->Continue_1->user.id is None
                        &&& step->Continue_1->user.login == login
                        &&& step->Continue_1->user.email == email
                        &&& step->Continue_1->user.password@ == password_digest(password@)
                    },
                    _ => false,
                },
                RegistrationState::Creating { login } => match event {
                    StoreEvent::Stored(Err(failure)) => step.fails_with(failure@),
                    StoreEvent::Stored(Ok(())) => step == Step::<RegistrationState, UserSession>::Continue(
                        RegistrationState::Fetching,
                        StoreAction::FindUser { login },
                    ),
                    _ => false,
                },
                RegistrationState::Fetching => match event {
                    StoreEvent::UserFound(Err(failure)) => step.fails_with(failure@),
                    StoreEvent::UserFound(Ok(Some(user))) => step matches Step::Finish(Ok(session))
                        && session_of(session, user),
                    _ => false,
                },
            },
    {
        match state {
            RegistrationState::LookingUp { login, password, email } => match event {
                StoreEvent::UserFound(Err(failure)) => Step::Finish(Err(ControllerError::Other(failure))),
                StoreEvent::UserFound(Ok(Some(_))) => Step::Finish(
                    Err(ControllerError::Auth(AuthError::LoginAlreadyExists)),
                ),
                StoreEvent::UserFound(Ok(None)) => {
                    let hashed = hash_password(password.as_str());
                    let user = UserModel { id: None, login: login.clone(), email, password: hashed };
                    Step::Continue(RegistrationState::Creating { login }, StoreAction::CreateUser { user })
                },
                _ => vstd::pervasive::unreached(),
            },
            RegistrationState::Creating { login } => match event {
                StoreEvent::Stored(Err(failure)) => Step::Finish(Err(ControllerError::Other(failure))),
                StoreEvent::Stored(Ok(())) => Step::Continue(
                    RegistrationState::Fetching,
                    StoreAction::FindUser { login },
                ),
                _ => vstd::pervasive::unreached(),
            },
            RegistrationState::Fetching => match event {
                StoreEvent::UserFound(Err(failure)) => Step::Finish(Err(ControllerError::Other(failure))),
                StoreEvent::UserFound(Ok(Some(user))) => Step::Finish(Ok(Self::session_for(user))),
                _ => vstd::pervasive::unreached(),
            },
        }
    }

    /// Starts a sign-in: look up the login. A registration request is a bad
    /// request here.
    pub fn start_login(request: AuthRequest) -> (step: Step<LoginState, UserSession>)
        ensures
            match request {
                AuthRequest::Login { login, password } => step == Step::<
                    LoginState,
                    UserSession,
                >::Continue(LoginState { password }, StoreAction::FindUser { login }),
                AuthRequest::Registration { .. } => step.refuses(
                    ControllerError::Auth(AuthError::BadRequest),
                ),
            },
    {
        match request {
            AuthRequest::Login { login, password } => Step::Continue(
                LoginState { password },
                StoreAction::FindUser { login },
            ),
            AuthRequest::Registration { .. } => Step::Finish(
                Err(ControllerError::Auth(AuthError::BadRequest)),
            ),
        }
    }

    /// Ends a sign-in: an unknown login and a wrong password are refused; with
    /// the right password the user's login, email and id are written into the
    /// session. A failure of the store ends the sign-in.
    pub fn step_login(state: LoginState, event: StoreEvent) -> (step: Step<LoginState, UserSession>)
        requires
            login_event_fits(state, event),
        ensures
            login_step(state, event, step),
            event matches StoreEvent::UserFound(Ok(Some(user))) ==> (user.password@
                == base64_standard(whirlpool_digest(encode_utf8(state.password@))) ==> (step matches Step::Finish(
                Ok(session)) && session.login == user.login && session.email == user.email
                && session.id == user.id->Some_0)),
    {
        match event {
            StoreEvent::UserFound(Err(failure)) => Step::Finish(Err(ControllerError::Other(failure))),
            StoreEvent::UserFound(Ok(None)) => Step::Finish(
                Err(ControllerError::Auth(AuthError::LoginIsInvalid)),
            ),
            StoreEvent::UserFound(Ok(Some(user))) => {
                if password_matches(&user.password, state.password.as_str()) {
                    Step::Finish(Ok(Self::session_for(user)))
                } else {
                    Step::Finish(Err(ControllerError::Auth(AuthError::PasswordIsInvalid)))
                }
            },
            _ => vstd::pervasive::unreached(),
        }
    }

    /// Ends a sign-in as `step_login` does, on every account found; gives
    /// nothing where the password is right for an account without an id.
    pub fn step_login_checked(state: LoginState, event: StoreEvent) -> (step: Option<
        Step<LoginState, UserSession>,
    >)
        requires
            event is UserFound,
        ensures
            step is None <==> login_stuck(state, event),
            step is None ==> (event matches StoreEvent::UserFound(Ok(Some(user))) && user.id is None),
            step matches Some(s) ==> login_step(state, event, s),
    {
        let stuck = match &event {
            StoreEvent::UserFound(Ok(Some(user))) => {
                user.id.is_none() && password_matches(&user.password, state.password.as_str())
            },
            _ => false,
        };
        if stuck {
            None
        } else {
            Some(Self::step_login(state, event))
        }
    }

    /// What the session holds for a signed-in user. The user must have an id.
    pub fn session_for(user: UserModel) -> (session: UserSession)
        requires
            user.id is Some,
        ensures
            session_of(session, user),
            session.login == user.login,
            session.email == user.email,
            session.id == user.id->Some_0,
    {
        let id = user.id.unwrap();
        UserSession { login: user.login, email: user.email, id }
    }

    /// The answer of the registration endpoint: every failure is a bad request
    /// that shows its text.
    pub fn registration_reply(result: &Result<(), ControllerError>) -> (reply: HttpReply<()>)
        ensures
            match result {
                Ok(()) => reply.is_text(ACCEPTED, Seq::empty()),
                Err(e) => reply.is_text(BAD_REQUEST, e.text()),
            },
    {
        match result {
            Ok(()) => HttpReply::text(ACCEPTED, String::new()),
            Err(e) => HttpReply::text(BAD_REQUEST, e.message()),
        }
    }

    /// The answer of the sign-in endpoint: the refusals of a sign-in are bad
    /// requests, anything else is an internal error; each shows its text.
    pub fn login_reply(result: &Result<(), ControllerError>) -> (reply: HttpReply<()>)
        ensures
            match result {
                Ok(()) => reply.is_text(ACCEPTED, "Login success"@),
                Err(ControllerError::Auth(AuthError::LoginAlreadyExists)) => reply.is_text(
                    INTERNAL_SERVER_ERROR,
                    "Login already exists"@,
                ),
                Err(ControllerError::Auth(e)) => reply.is_text(BAD_REQUEST, e.text()),
                Err(e) => reply.is_text(INTERNAL_SERVER_ERROR, e.text()),
            },
    {
        match result {
            Ok(()) => HttpReply::text(ACCEPTED, "Login success".to_owned()),
            Err(ControllerError::Auth(AuthError::LoginAlreadyExists)) => HttpReply::text(
                INTERNAL_SERVER_ERROR,
                AuthError::LoginAlreadyExists.message(),
            ),
            Err(ControllerError::Auth(e)) => HttpReply::text(BAD_REQUEST, e.message()),
            Err(e) => HttpReply::text(INTERNAL_SERVER_ERROR, e.message()),
        }
    }

    /// The answer of the sign-out endpoint.
    pub fn logout_reply(result: &Result<(), ControllerError>) -> (reply: HttpReply<()>)
        ensures
            match result {
                Ok(()) => reply.is_text(ACCEPTED, "Logout success"@),
                Err(e) => reply.is_text(BAD_REQUEST, e.text()),
            },
    {
        match result {
            Ok(()) => HttpReply::text(ACCEPTED, "Logout success".to_owned()),
            Err(e) => HttpReply::text(BAD_REQUEST, e.message()),
        }
    }
}

/// After registering with a password, a sign-in is accepted exactly when the
/// password given has the same Whirlpool digest as the registered one: the
/// registered password itself signs in, and any password whose digest differs
/// is refused.
pub proof fn lemma_registered_password_signs_in(registered: Seq<char>, given: Seq<char>)
    ensures
        login_accepted(password_digest(registered), registered),
        login_accepted(password_digest(registered), given) <==> whirlpool_digest(
            encode_utf8(registered),
        ) == whirlpool_digest(encode_utf8(given)),
{
    if password_digest(registered) == password_digest(given) {
        lemma_base64_injective(
            whirlpool_digest(encode_utf8(registered)),
            whirlpool_digest(encode_utf8(given)),
        );
    }
}

/// How a sign-in ends on an account found: with the right password (the stored
/// text is the Base64 of the Whirlpool digest of the password given) it
/// finishes with a session holding that account's login, email and whole id,
/// whatever the password; with any other stored text it is refused as a wrong
/// password.
pub proof fn lemma_sign_in_outcome(
    state: LoginState,
    user: UserModel,
    step: Step<LoginState, UserSession>,
)
    requires
        login_step(state, StoreEvent::UserFound(Ok(Some(user))), step),
    ensures
        user.password@ == base64_standard(whirlpool_digest(encode_utf8(state.password@))) ==> (
        step matches Step::Finish(Ok(session)) && session.login == user.login && session.email
            == user.email && session.id == user.id->Some_0),
        user.password@ != base64_standard(whirlpool_digest(encode_utf8(state.password@))) ==> step
            == Step::<LoginState, UserSession>::Finish(
            Err(ControllerError::Auth(AuthError::PasswordIsInvalid)),
        ),
{
    lemma_password_digest_is_base64_of_whirlpool(state.password@, state.password@);
}

/// The session written for a user holds that user's login, email and whole
/// record id, unchanged.
pub proof fn lemma_session_holds_the_user(session: UserSession, user: UserModel)
    requires
        session_of(session, user),
    ensures
        session.login == user.login,
        session.email == user.email,
        session.id == user.id->Some_0,
        session.id@.len() == user.id->Some_0@.len(),
{
}

/// A sign-in is stuck only on an account that has no id and whose stored text
/// is the Base64 of the Whirlpool digest of the password given; an account
/// with an id never is.
pub proof fn lemma_stuck_only_without_id(state: LoginState, event: StoreEvent)
    ensures
        login_stuck(state, event) ==> (event matches StoreEvent::UserFound(Ok(Some(user)))
            && user.id is None && user.password@ == base64_standard(
            whirlpool_digest(encode_utf8(state.password@)),
        )),
        (event matches StoreEvent::UserFound(Ok(Some(user))) && user.id is Some) ==> !login_stuck(
            state,
            event,
        ),
{
    lemma_password_digest_is_base64_of_whirlpool(state.password@, state.password@);
}

} // verus!
