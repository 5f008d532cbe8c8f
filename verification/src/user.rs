//! Accounts: the stored user, the requests of the user endpoints, and what those
//! endpoints decide and answer.

use crate::error::ControllerError;
use crate::flow::{finish_stored, Step, StoreAction, StoreEvent};
use crate::reply::{HttpReply, ACCEPTED, BAD_REQUEST, INTERNAL_SERVER_ERROR, NOT_FOUND, UNAUTHORIZED};
use crate::store::SelectQuery;
use vstd::prelude::*;

verus! {

/// A request to the user endpoints.
#[derive(Debug, PartialEq, Eq)]
pub enum UserServiceResponse {
    Create { login: String, email: String, password: String },
    GetByLogin { login: String },
}

/// Why a user endpoint refused a request.
#[derive(Debug, PartialEq, Eq)]
pub enum UserServiceError {
    UnauthorizedRequest,
    BadCreateRequest,
    UserNotFound,
}

impl UserServiceError {
    /// The text of the error.
    pub open spec fn text(&self) -> Seq<char> {
        match self {
            UserServiceError::UnauthorizedRequest => "Try to get user data without authorization"@,
            UserServiceError::BadCreateRequest => "Bad request to create user"@,
            UserServiceError::UserNotFound => "User not found"@,
        }
    }

    /// The text of the error, as it is shown to a client.
    pub fn message(&self) -> (message: String)
        ensures
            message@ == self.text(),
    {
        match self {
            UserServiceError::UnauthorizedRequest => "Try to get user data without authorization".to_owned(),
            UserServiceError::BadCreateRequest => "Bad request to create user".to_owned(),
            UserServiceError::UserNotFound => "User not found".to_owned(),
        }
    }
}

/// A stored user. `id` is the record id in its text form (`user:...`); it is
/// absent only on a user that has not been stored yet.
#[derive(Debug, PartialEq, Eq)]
pub struct UserModel {
    pub id: Option<String>,
    pub login: String,
    pub email: String,
    pub password: String,
}

/// The fields of a user to be created.
#[derive(Debug, PartialEq, Eq)]
pub struct UserModelDto {
    pub login: String,
    pub email: String,
    pub password: String,
}

/// The user endpoints.
#[derive(Debug, PartialEq, Eq)]
pub struct UserController;

impl UserController {
    /// Starts the creation of a user: store the user that the request
    /// describes, with no id yet. Any other request is a bad creation request.
    pub fn start_creation(request: UserServiceResponse) -> (step: Step<(), ()>)
        ensures
            match request {
                UserServiceResponse::Create { login, email, password } => step == Step::<
                    (),
                    (),
                >::Continue(
                    (),
                    StoreAction::CreateUser {
                        user: UserModel { id: None, login, email, password },
                    },
                ),
                UserServiceResponse::GetByLogin { .. } => step.refuses(
                    ControllerError::User(UserServiceError::BadCreateRequest),
                ),
            },
    {
        match request {
            UserServiceResponse::Create { login, email, password } => {
                let user = UserService::new_user(UserModelDto { login, email, password });
                Step::Continue((), StoreAction::CreateUser { user })
            },
            UserServiceResponse::GetByLogin { .. } => Step::Finish(
                Err(ControllerError::User(UserServiceError::BadCreateRequest)),
            ),
        }
    }

    /// Ends the creation of a user with what the store answered.
    pub fn step_creation(event: StoreEvent) -> (step: Step<(), ()>)
        requires
            event is Stored,
        ensures
            match event {
                StoreEvent::Stored(Ok(())) => step == Step::<(), ()>::Finish(Ok(())),
                StoreEvent::Stored(Err(failure)) => step.fails_with(failure@),
                _ => false,
            },
    {
        finish_stored(event)
    }

    /// Starts returning the signed-in user, given what the session holds under
    /// `login` (or why it could not be read): look the login up. A session
    /// without a login is unauthorized.
    pub fn start_lookup(session_login: Result<Option<String>, String>) -> (step: Step<(), UserModel>)
        ensures
            match session_login {
                Err(failure) => step.fails_with(failure@),
                Ok(None) => step.refuses(ControllerError::User(UserServiceError::UnauthorizedRequest)),
                Ok(Some(login)) => step == Step::<(), UserModel>::Continue(
                    (),
                    StoreAction::FindUser { login },
                ),
            },
    {
        match session_login {
            Err(failure) => Step::Finish(Err(ControllerError::Other(failure))),
            Ok(None) => Step::Finish(Err(ControllerError::User(UserServiceError::UnauthorizedRequest))),
            Ok(Some(login)) => Step::Continue((), StoreAction::FindUser { login }),
        }
    }

    /// Ends returning the signed-in user: a failed lookup counts as an
    /// unauthorized request, a missing user is not found.
    pub fn step_lookup(event: StoreEvent) -> (step: Step<(), UserModel>)
        requires
            event is UserFound,
        ensures
            match event {
                StoreEvent::UserFound(Err(_)) => step.refuses(
                    ControllerError::User(UserServiceError::UnauthorizedRequest),
                ),
                StoreEvent::UserFound(Ok(None)) => step.refuses(
                    ControllerError::User(UserServiceError::UserNotFound),
                ),
                StoreEvent::UserFound(Ok(Some(user))) => step == Step::<(), UserModel>::Finish(
                    Ok(user),
                ),
                _ => false,
            },
    {
        match event {
            StoreEvent::UserFound(Err(_)) => Step::Finish(
                Err(ControllerError::User(UserServiceError::UnauthorizedRequest)),
            ),
            StoreEvent::UserFound(Ok(None)) => Step::Finish(
                Err(ControllerError::User(UserServiceError::UserNotFound)),
            ),
            StoreEvent::UserFound(Ok(Some(user))) => Step::Finish(Ok(user)),
            _ => vstd::pervasive::unreached(),
        }
    }

    /// The answer of the user-creation endpoint. Only the user service's own
    /// errors are answered; `requires` leaves out every other failure.
    pub fn creation_reply(result: &Result<(), ControllerError>) -> (reply: HttpReply<UserModel>)
        requires
            result matches Err(e) ==> e is User,
        ensures
            match result {
                Ok(()) => reply.is_text(ACCEPTED, "User created successful"@),
                Err(ControllerError::User(UserServiceError::BadCreateRequest)) => reply.is_text(
                    BAD_REQUEST,
                    "Bad request to create user"@,
                ),
                Err(_) => reply.is_empty(INTERNAL_SERVER_ERROR),
            },
    {
        match result {
            Ok(()) => HttpReply::text(ACCEPTED, "User created successful".to_owned()),
            Err(ControllerError::User(UserServiceError::BadCreateRequest)) => HttpReply::text(
                BAD_REQUEST,
                UserServiceError::BadCreateRequest.message(),
            ),
            Err(_) => HttpReply::empty(INTERNAL_SERVER_ERROR),
        }
    }

    /// The answer of the endpoint that returns the signed-in user. Only the user
    /// service's own errors are answered; `requires` leaves out every other failure.
    pub fn lookup_reply(result: Result<UserModel, ControllerError>) -> (reply: HttpReply<UserModel>)
        requires
            result matches Err(e) ==> e is User,
        ensures
            match result {
                Ok(user) => reply.is_json(ACCEPTED, user),
                Err(ControllerError::User(UserServiceError::UnauthorizedRequest)) => reply.is_text(
                    UNAUTHORIZED,
                    "Try to get user data without authorization"@,
                ),
                Err(ControllerError::User(UserServiceError::UserNotFound)) => reply.is_text(
                    NOT_FOUND,
                    "User not found"@,
                ),
                Err(_) => reply.is_empty(INTERNAL_SERVER_ERROR),
            },
    {
        match result {
            Ok(user) => HttpReply::json(ACCEPTED, user),
            Err(ControllerError::User(UserServiceError::UnauthorizedRequest)) => HttpReply::text(
                UNAUTHORIZED,
                UserServiceError::UnauthorizedRequest.message(),
            ),
            Err(ControllerError::User(UserServiceError::UserNotFound)) => HttpReply::text(
                NOT_FOUND,
                UserServiceError::UserNotFound.message(),
            ),
            Err(_) => HttpReply::empty(INTERNAL_SERVER_ERROR),
        }
    }
}

/// The user store.
#[derive(Debug, PartialEq, Eq)]
pub struct UserService;

impl UserService {
    /// The query that finds the user with a given login.
    pub fn find_by_login(login: &str) -> (query: SelectQuery)
        ensures
            query.text@ == "SELECT * FROM user WHERE login = $login"@,
            query.param@ == "login"@,
            query.value@ == login@,
            !query.record,
    {
        SelectQuery {
            text: "SELECT * FROM user WHERE login = $login".to_owned(),
            param: "login".to_owned(),
            value: login.to_owned(),
            record: false,
        }
    }

    /// The record stored for a new user: the fields of the request, no id yet.
    pub fn new_user(dto: UserModelDto) -> (user: UserModel)
        ensures
            user == (UserModel { id: None, login: dto.login, email: dto.email, password: dto.password }),
    {
        UserModel { id: None, login: dto.login, email: dto.email, password: dto.password }
    }
}

} // verus!
