//! The shape shared by every endpoint: a controller decides, step by step, which
//! call to make to the store next, and is told what came back.

use crate::course::{CourseModel, CourseModelUpdateDto};
use crate::error::ControllerError;
use crate::module::{ModuleModel, ModuleModelUpdateDto, ModuleServiceRequest};
use crate::user::UserModel;
use vstd::prelude::*;

verus! {

/// A call to the database (or, for `CanonicalRecordId`, to the record-id
/// parser of the database client) that a controller asks for.
#[derive(Debug, PartialEq, Eq)]
pub enum StoreAction {
    /// Find the user with this login; answered by `UserFound`.
    FindUser { login: String },
    /// Store this new user; answered by `Stored`.
    CreateUser { user: UserModel },
    /// Find the course with this record id; answered by `CourseFound`.
    FindCourse { id: String },
    /// Store this new course; answered by `Stored`.
    CreateCourse { course: CourseModel },
    /// Merge this change into the course with this record id; answered by `Stored`.
    UpdateCourse { id: String, course_change: CourseModelUpdateDto },
    /// Delete the course with this record id; answered by `Stored`.
    DeleteCourse { id: String },
    /// Find the modules of the course with this id; answered by `ModulesFound`.
    FindModules { course_id: String },
    /// Carry out these module deletions in order, stopping at the first failure;
    /// answered by `Stored`.
    DeleteModules { requests: Vec<ModuleServiceRequest> },
    /// Store this new module; answered by `ModuleFound` with the stored module.
    CreateModule { module: ModuleModel },
    /// Find the module with this record id; answered by `ModuleFound`.
    FindModule { id: String },
    /// Merge this change into the module with this record id; answered by `Stored`.
    UpdateModule { id: String, module_change: ModuleModelUpdateDto },
    /// Parse this text as a record id and give back its canonical text;
    /// answered by `RecordId`.
    CanonicalRecordId { text: String },
}

/// What the store answered; a failure is kept as its message.
#[derive(Debug, PartialEq, Eq)]
pub enum StoreEvent {
    UserFound(Result<Option<UserModel>, String>),
    CourseFound(Result<Option<CourseModel>, String>),
    ModuleFound(Result<Option<ModuleModel>, String>),
    ModulesFound(Result<Vec<ModuleModel>, String>),
    Stored(Result<(), String>),
    RecordId(String),
}

/// What a controller does next: go on in a new state after one more call, or
/// finish with its result.
#[derive(Debug, PartialEq, Eq)]
pub enum Step<S, T> {
    Continue(S, StoreAction),
    Finish(Result<T, ControllerError>),
}

impl<S, T> Step<S, T> {
    /// The step finishes with this failure of the store, kept as its message.
    pub open spec fn fails_with(&self, failure: Seq<char>) -> bool {
        self matches Step::Finish(Err(ControllerError::Other(m))) && m@ == failure
    }

    /// The step finishes with this error.
    pub open spec fn refuses(&self, error: ControllerError) -> bool {
        *self == Step::<S, T>::Finish(Err(error))
    }
}

/// The last step of a controller whose last call stores something: it
/// succeeds when the store did, and otherwise fails with the store's message.
pub fn finish_stored<S>(event: StoreEvent) -> (step: Step<S, ()>)
    requires
        event is Stored,
    ensures
        match event {
            StoreEvent::Stored(Ok(())) => step == Step::<S, ()>::Finish(Ok(())),
            StoreEvent::Stored(Err(failure)) => step.fails_with(failure@),
            _ => false,
        },
{
    match event {
        StoreEvent::Stored(Ok(())) => Step::Finish(Ok(())),
        StoreEvent::Stored(Err(failure)) => Step::Finish(Err(ControllerError::Other(failure))),
        _ => vstd::pervasive::unreached(),
    }
}

/// What the session holds under `id` decides a request that needs a signed-in
/// user: a failed read is kept, a missing id gives `absent`.
pub open spec fn session_owner(
    session_id: Result<Option<String>, String>,
    absent: ControllerError,
    owner: Result<String, ControllerError>,
) -> bool {
    match session_id {
        Err(failure) => owner matches Err(ControllerError::Other(m)) && m@ == failure@,
        Ok(None) => owner == Err::<String, ControllerError>(absent),
        Ok(Some(id)) => owner == Ok::<String, ControllerError>(id),
    }
}

/// Reads the signed-in user's id out of what the session gave back.
pub fn signed_in(session_id: Result<Option<String>, String>, absent: ControllerError) -> (owner: Result<
    String,
    ControllerError,
>)
    ensures
        session_owner(session_id, absent, owner),
{
    match session_id {
        Err(failure) => Err(ControllerError::Other(failure)),
        Ok(None) => Err(absent),
        Ok(Some(id)) => Ok(id),
    }
}

/// A step that refuses finishes with exactly that error, and a step that fails
/// finishes with an outside failure carrying exactly that message.
pub proof fn lemma_finishing_steps<S, T>(step: Step<S, T>, error: ControllerError, failure: Seq<char>)
    ensures
        step.refuses(error) ==> step == Step::<S, T>::Finish(Err(error)),
        step.fails_with(failure) ==> (step matches Step::Finish(Err(ControllerError::Other(m)))
            && m@ == failure),
{
}

/// Reading the signed-in user: a failed read keeps its message, a session
/// without an id gives the given error, and an id is passed on unchanged.
pub proof fn lemma_signed_in_user(
    session_id: Result<Option<String>, String>,
    absent: ControllerError,
    owner: Result<String, ControllerError>,
)
    requires
        session_owner(session_id, absent, owner),
    ensures
        session_id matches Ok(Some(id)) ==> owner == Ok::<String, ControllerError>(id),
        session_id matches Ok(None) ==> owner == Err::<String, ControllerError>(absent),
        session_id matches Err(f) ==> (owner matches Err(ControllerError::Other(m)) && m@ == f@),
{
}

} // verus!
