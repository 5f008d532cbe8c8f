//! The errors that a controller step can end with.

use crate::auth::AuthError;
use crate::course::CourseServiceError;
use crate::module::ModuleServiceError;
use crate::user::UserServiceError;
use vstd::prelude::*;

verus! {

/// Why a controller gave up: one of the services' own errors, or a failure of
/// the database or of the session store, kept as its message.
#[derive(Debug, PartialEq, Eq)]
pub enum ControllerError {
    Auth(AuthError),
    User(UserServiceError),
    Course(CourseServiceError),
    Module(ModuleServiceError),
    Other(String),
}

impl ControllerError {
    /// The text of the error.
    pub open spec fn text(&self) -> Seq<char> {
        match self {
            ControllerError::Auth(e) => e.text(),
            ControllerError::User(e) => e.text(),
            ControllerError::Course(e) => e.text(),
            ControllerError::Module(e) => e.text(),
            ControllerError::Other(message) => message@,
        }
    }

    /// The text of the error, as it is shown to a client.
    pub fn message(&self) -> (message: String)
        ensures
            message@ == self.text(),
    {
        match self {
            ControllerError::Auth(e) => e.message(),
            ControllerError::User(e) => e.message(),
            ControllerError::Course(e) => e.message(),
            ControllerError::Module(e) => e.message(),
            ControllerError::Other(message) => message.clone(),
        }
    }
}

} // verus!
