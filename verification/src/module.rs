//! Modules of a course: the stored module, the requests of the module endpoints,
//! and what those endpoints decide and answer.

use crate::course::{CourseModel, CourseModelUpdateDto, CourseServiceError};
use crate::error::ControllerError;
use crate::lecture::LectureModel;
use crate::flow::{finish_stored, signed_in, Step, StoreAction, StoreEvent};
use crate::reply::{
    HttpReply, ACCEPTED, BAD_REQUEST, CONFLICT, CREATED, INTERNAL_SERVER_ERROR, NOT_FOUND,
    UNAUTHORIZED,
};
use crate::store::SelectQuery;
use vstd::prelude::*;

verus! {

/// A request to the module endpoints.
#[derive(Debug, PartialEq, Eq)]
pub enum ModuleServiceRequest {
    CreateModule { course_id: String, title: String, description: String },
    GetModule { id: String },
    UpdateModule { id: String, dto: ModuleModelUpdateDto },
    DeleteModule { id: String },
}

/// Why a module endpoint refused a request.
#[derive(Debug, PartialEq, Eq)]
pub enum ModuleServiceError {
    BadRequest,
    IsNotCourseOwner,
    UnauthorizedRequest,
    ModuleNotFound,
}

impl ModuleServiceError {
    /// The text of the error.
    pub open spec fn text(&self) -> Seq<char> {
        match self {
            ModuleServiceError::BadRequest => "Bad request"@,
            ModuleServiceError::IsNotCourseOwner => "Trying add module to course, when you is not course owner"@,
            ModuleServiceError::UnauthorizedRequest => "Trying create module in unauthorized"@,
            ModuleServiceError::ModuleNotFound => "Module not found"@,
        }
    }

    /// The text of the error, as it is shown to a client.
    pub fn message(&self) -> (message: String)
        ensures
            message@ == self.text(),
    {
        match self {
            ModuleServiceError::BadRequest => "Bad request".to_owned(),
            ModuleServiceError::IsNotCourseOwner => "Trying add module to course, when you is not course owner".to_owned(),
            ModuleServiceError::UnauthorizedRequest => "Trying create module in unauthorized".to_owned(),
            ModuleServiceError::ModuleNotFound => "Module not found".to_owned(),
        }
    }
}

/// A stored module. Record ids are kept in their text form (`table:key`); `id`
/// is absent only on a module that has not been stored yet.
#[derive(Debug, PartialEq, Eq)]
pub struct ModuleModel {
    pub id: Option<String>,
    pub course_id: String,
    pub title: String,
    pub lectures: Vec<LectureModel>,
}

/// The fields of a module to be created.
#[derive(Debug, PartialEq, Eq)]
pub struct ModuleModelDto {
    pub course_id: String,
    pub title: String,
    pub description: String,
}

/// A change to a module: the fields that are present replace the stored ones.
#[derive(Debug, PartialEq, Eq)]
pub struct ModuleModelUpdateDto {
    pub title: Option<String>,
    pub description: Option<String>,
}

/// The text of the failure when the store created no module.
pub open spec fn creation_failure_text() -> Seq<char> {
    "Fail to create module"@
}

/// Where a creation of a module stands between two calls to the store.
#[derive(Debug, PartialEq, Eq)]
pub enum ModuleCreationState {
    /// Looking the course up.
    Finding { course_id: String, title: String, description: String, user: String },
    /// Reading the signed-in user's id as a record id, to compare it with the
    /// course's owner.
    Comparing { course_id: String, title: String, description: String, course: CourseModel },
    /// Storing the new module.
    Creating { course_id: String, modules: Vec<ModuleModel> },
    /// Recording the new module in its course.
    Attaching,
}

impl ModuleCreationState {
    /// At most how many calls to the store the request still makes, counting
    /// the one that led into this state.
    pub open spec fn calls_left(&self) -> nat {
        match self {
            ModuleCreationState::Finding { .. } => 4,
            ModuleCreationState::Comparing { .. } => 3,
            ModuleCreationState::Creating { .. } => 2,
            ModuleCreationState::Attaching => 1,
        }
    }
}

/// The answers that a creation of a module can be given in each state. A course
/// whose owner is the signed-in user must have an id.
pub open spec fn module_creation_event_fits(state: ModuleCreationState, event: StoreEvent) -> bool {
    match state {
        ModuleCreationState::Finding { .. } => event is CourseFound,
        ModuleCreationState::Comparing { course, .. } => {
            &&& event is RecordId
            &&& (event matches StoreEvent::RecordId(owner) ==> (course.owner_id@ == owner@
                ==> course.id is Some))
        },
        ModuleCreationState::Creating { .. } => event is ModuleFound,
        ModuleCreationState::Attaching => event is Stored,
    }
}

/// Where an update of a module stands between two calls to the store.
#[derive(Debug, PartialEq, Eq)]
pub enum ModuleUpdateState {
    /// Looking the module up.
    FindingModule { change: ModuleModelUpdateDto, user: String },
    /// Looking the module's course up.
    FindingCourse { change: ModuleModelUpdateDto, user: String },
    /// Storing the change.
    Updating,
}

impl ModuleUpdateState {
    /// At most how many calls to the store the request still makes, counting
    /// the one that led into this state.
    pub open spec fn calls_left(&self) -> nat {
        match self {
            ModuleUpdateState::FindingModule { .. } => 3,
            ModuleUpdateState::FindingCourse { .. } => 2,
            ModuleUpdateState::Updating => 1,
        }
    }
}

/// The answers that an update of a module can be given in each state.
pub open spec fn module_update_event_fits(state: ModuleUpdateState, event: StoreEvent) -> bool {
    match state {
        ModuleUpdateState::FindingModule { .. } => event is ModuleFound,
        ModuleUpdateState::FindingCourse { .. } => event is CourseFound,
        ModuleUpdateState::Updating => event is Stored,
    }
}

/// The module endpoints.
#[derive(Debug, PartialEq, Eq)]
pub struct ModuleController;

impl ModuleController {
    /// Starts the creation of a module: find its course. Another request is a
    /// bad request, no signed-in user is an unauthorized request.
    pub fn start_creation(request: ModuleServiceRequest, session_id: Result<Option<String>, String>) -> (step:
        Step<ModuleCreationState, ()>)
        ensures
            match request {
                ModuleServiceRequest::CreateModule { course_id, title, description } => {
                    match session_id {
                        Err(failure) => step.fails_with(failure@),
                        Ok(None) => step.refuses(
                            ControllerError::Module(ModuleServiceError::UnauthorizedRequest),
                        ),
                        Ok(Some(user)) => step == Step::<ModuleCreationState, ()>::Continue(
                            ModuleCreationState::Finding { course_id, title, description, user },
                            StoreAction::FindCourse { id: course_id },
                        ),
                    }
                },
                _ => step.refuses(ControllerError::Module(ModuleServiceError::BadRequest)),
            },
    {
        match request {
            ModuleServiceRequest::CreateModule { course_id, title, description } => {
                match signed_in(
                    session_id,
                    ControllerError::Module(ModuleServiceError::UnauthorizedRequest),
                ) {
                    Err(e) => Step::Finish(Err(e)),
                    Ok(user) => {
                        let id = course_id.clone();
                        Step::Continue(
                            ModuleCreationState::Finding { course_id, title, description, user },
                            StoreAction::FindCourse { id },
                        )
                    },
                }
            },
            _ => Step::Finish(Err(ControllerError::Module(ModuleServiceError::BadRequest))),
        }
    }

    /// Goes on with the creation of a module: a missing course is not found;
    /// the signed-in user's id is read as a record id and compared with the
    /// course's owner; for the owner the module is stored under the course's
    /// id and then added at the end of the course's modules, anyone else is
    /// refused. A store that creates no module fails the creation.
    pub fn step_creation(state: ModuleCreationState, event: StoreEvent) -> (step: Step<
        ModuleCreationState,
        (),
    >)
        requires
            module_creation_event_fits(state, event),
        ensures
            step matches Step::Continue(next, _) ==> next.calls_left() < state.calls_left(),
            match state {
                ModuleCreationState::Finding { course_id, title, description, user } => match event {
                    StoreEvent::CourseFound(Err(failure)) => step.fails_with(failure@),
                    StoreEvent::CourseFound(Ok(None)) => step.refuses(
                        ControllerError::Course(CourseServiceError::CourseNotFound),
                    ),
                    StoreEvent::CourseFound(Ok(Some(course))) => step == Step::<
                        ModuleCreationState,
                        (),
                    >::Continue(
                        ModuleCreationState::Comparing { course_id, title, description, course },
                        StoreAction::CanonicalRecordId { text: user },
                    ),
                    _ => false,
                },
                ModuleCreationState::Comparing { course_id, title, description, course } => match event {
                    StoreEvent::RecordId(owner) => if course.owner_id@ == owner@ {
                        &&& step matches Step::Continue(
                            ModuleCreationState::Creating { course_id: next, modules },
                            StoreAction::CreateModule { module },
                        )
                        &&& step->Continue_0 == ModuleCreationState::Creating {
                            course_id,
                            modules: course.modules,
                        }
                        &&& step->Continue_1->module.id is None
                        &&& step->Continue_1->module.course_id@ == course.id->Some_0@
                        &&& step->Continue_1->module.title == title
                        &&& step->Continue_1->module.lectures@.len() == 0
                    } else {
                        step.refuses(ControllerError::Module(ModuleServiceError::IsNotCourseOwner))
                    },
                    _ => false,
                },
                ModuleCreationState::Creating { course_id, modules } => match event {
                    StoreEvent::ModuleFound(Err(failure)) => step.fails_with(failure@),
                    StoreEvent::ModuleFound(Ok(None)) => step.fails_with(creation_failure_text()),
                    StoreEvent::ModuleFound(Ok(Some(module))) => {
                        &&& step matches Step::Continue(
                            ModuleCreationState::Attaching,
                            StoreAction::UpdateCourse { id, course_change },
                        )
                        &&& step->Continue_1->UpdateCourse_id == course_id
                        &&& step->Continue_1->course_change.title is None
                        &&& step->Continue_1->course_change.description is None
                        &&& step->Continue_1->course_change.image_id is None
                        &&& step->Continue_1->course_change.modules is Some
                        &&& step->Continue_1->course_change.modules->Some_0@ == modules@.push(module)
                    },
                    _ => false,
                },
                ModuleCreationState::Attaching => match event {
                    StoreEvent::Stored(Ok(())) => step == Step::<ModuleCreationState, ()>::Finish(Ok(())),
                    StoreEvent::Stored(Err(failure)) => step.fails_with(failure@),
                    _ => false,
                },
            },
    {
        match state {
            ModuleCreationState::Finding { course_id, title, description, user } => match event {
                StoreEvent::CourseFound(Err(failure)) => Step::Finish(Err(ControllerError::Other(failure))),
                StoreEvent::CourseFound(Ok(None)) => Step::Finish(
                    Err(ControllerError::Course(CourseServiceError::CourseNotFound)),
                ),
                StoreEvent::CourseFound(Ok(Some(course))) => Step::Continue(
                    ModuleCreationState::Comparing { course_id, title, description, course },
                    StoreAction::CanonicalRecordId { text: user },
                ),
                _ => vstd::pervasive::unreached(),
            },
            ModuleCreationState::Comparing { course_id, title, description, course } => match event {
                StoreEvent::RecordId(owner) => {
                    if course.owner_id == owner {
                        let record = course.id.unwrap();
                        let module = ModuleService::new_module(
                            ModuleModelDto { course_id: record, title, description },
                        );
                        Step::Continue(
                            ModuleCreationState::Creating { course_id, modules: course.modules },
                            StoreAction::CreateModule { module },
                        )
                    } else {
                        Step::Finish(Err(ControllerError::Module(ModuleServiceError::IsNotCourseOwner)))
                    }
                },
                _ => vstd::pervasive::unreached(),
            },
            ModuleCreationState::Creating { course_id, modules } => match event {
                StoreEvent::ModuleFound(Err(failure)) => Step::Finish(Err(ControllerError::Other(failure))),
                StoreEvent::ModuleFound(Ok(None)) => Step::Finish(
                    Err(ControllerError::Other("Fail to create module".to_owned())),
                ),
                StoreEvent::ModuleFound(Ok(Some(module))) => {
                    let mut modules = modules;
                    modules.push(module);
                    let course_change = CourseModelUpdateDto {
                        title: None,
                        description: None,
                        image_id: None,
                        modules: Some(modules),
                    };
                    Step::Continue(
                        ModuleCreationState::Attaching,
                        StoreAction::UpdateCourse { id: course_id, course_change },
                    )
                },
                _ => vstd::pervasive::unreached(),
            },
            ModuleCreationState::Attaching => finish_stored(event),
        }
    }

    /// Starts a lookup of a module: find it by its id. Another request is a bad
    /// request.
    pub fn start_lookup(request: ModuleServiceRequest) -> (step: Step<(), ModuleModel>)
        ensures
            match request {
                ModuleServiceRequest::GetModule { id } => step == Step::<(), ModuleModel>::Continue(
                    (),
                    StoreAction::FindModule { id },
                ),
                _ => step.refuses(ControllerError::Module(ModuleServiceError::BadRequest)),
            },
    {
        match request {
            ModuleServiceRequest::GetModule { id } => Step::Continue((), StoreAction::FindModule { id }),
            _ => Step::Finish(Err(ControllerError::Module(ModuleServiceError::BadRequest))),
        }
    }

    /// Ends a lookup of a module: the module found, or not found.
    pub fn step_lookup(event: StoreEvent) -> (step: Step<(), ModuleModel>)
        requires
            event is ModuleFound,
        ensures
            match event {
                StoreEvent::ModuleFound(Err(failure)) => step.fails_with(failure@),
                StoreEvent::ModuleFound(Ok(None)) => step.refuses(
                    ControllerError::Module(ModuleServiceError::ModuleNotFound),
                ),
                StoreEvent::ModuleFound(Ok(Some(module))) => step == Step::<(), ModuleModel>::Finish(
                    Ok(module),
                ),
                _ => false,
            },
    {
        match event {
            StoreEvent::ModuleFound(Err(failure)) => Step::Finish(Err(ControllerError::Other(failure))),
            StoreEvent::ModuleFound(Ok(None)) => Step::Finish(
                Err(ControllerError::Module(ModuleServiceError::ModuleNotFound)),
            ),
            StoreEvent::ModuleFound(Ok(Some(module))) => Step::Finish(Ok(module)),
            _ => vstd::pervasive::unreached(),
        }
    }

    /// Starts an update of a module: find the module. Another request is a bad
    /// request, no signed-in user is an unauthorized request.
    pub fn start_update(request: ModuleServiceRequest, session_id: Result<Option<String>, String>) -> (step:
        Step<ModuleUpdateState, ()>)
        ensures
            match request {
                ModuleServiceRequest::UpdateModule { id, dto } => match session_id {
                    Err(failure) => step.fails_with(failure@),
                    Ok(None) => step.refuses(
                        ControllerError::Module(ModuleServiceError::UnauthorizedRequest),
                    ),
                    Ok(Some(user)) => step == Step::<ModuleUpdateState, ()>::Continue(
                        ModuleUpdateState::FindingModule { change: dto, user },
                        StoreAction::FindModule { id },
                    ),
                },
                _ => step.refuses(ControllerError::Module(ModuleServiceError::BadRequest)),
            },
    {
        match request {
            ModuleServiceRequest::UpdateModule { id, dto } => {
                match signed_in(
                    session_id,
                    ControllerError::Module(ModuleServiceError::UnauthorizedRequest),
                ) {
                    Err(e) => Step::Finish(Err(e)),
                    Ok(user) => Step::Continue(
                        ModuleUpdateState::FindingModule { change: dto, user },
                        StoreAction::FindModule { id },
                    ),
                }
            },
            _ => Step::Finish(Err(ControllerError::Module(ModuleServiceError::BadRequest))),
        }
    }

    /// Goes on with an update of a module: a missing module, or a missing
    /// course of the module, is not found; when the signed-in user owns the
    /// module's course the change is stored under the record named by the
    /// signed-in user's id, anyone else is an unauthorized request.
    pub fn step_update(state: ModuleUpdateState, event: StoreEvent) -> (step: Step<ModuleUpdateState, ()>)
        requires
            module_update_event_fits(state, event),
        ensures
            step matches Step::Continue(next, _) ==> next.calls_left() < state.calls_left(),
            match state {
                ModuleUpdateState::FindingModule { change, user } => match event {
                    StoreEvent::ModuleFound(Err(failure)) => step.fails_with(failure@),
                    StoreEvent::ModuleFound(Ok(None)) => step.refuses(
                        ControllerError::Module(ModuleServiceError::ModuleNotFound),
                    ),
                    StoreEvent::ModuleFound(Ok(Some(module))) => step == Step::<
                        ModuleUpdateState,
                        (),
                    >::Continue(
                        ModuleUpdateState::FindingCourse { change, user },
                        StoreAction::FindCourse { id: module.course_id },
                    ),
                    _ => false,
                },
                ModuleUpdateState::FindingCourse { change, user } => match event {
                    StoreEvent::CourseFound(Err(failure)) => step.fails_with(failure@),
                    StoreEvent::CourseFound(Ok(None)) => step.refuses(
                        ControllerError::Course(CourseServiceError::CourseNotFound),
                    ),
                    StoreEvent::CourseFound(Ok(Some(course))) => if course.owner_id@ == user@ {
                        step == Step::<ModuleUpdateState, ()>::Continue(
                            ModuleUpdateState::Updating,
                            StoreAction::UpdateModule { id: user, module_change: change },
                        )
                    } else {
                        step.refuses(ControllerError::Module(ModuleServiceError::UnauthorizedRequest))
                    },
                    _ => false,
                },
                ModuleUpdateState::Updating => match event {
                    StoreEvent::Stored(Ok(())) => step == Step::<ModuleUpdateState, ()>::Finish(Ok(())),
                    StoreEvent::Stored(Err(failure)) => step.fails_with(failure@),
                    _ => false,
                },
            },
    {
        match state {
            ModuleUpdateState::FindingModule { change, user } => match event {
                StoreEvent::ModuleFound(Err(failure)) => Step::Finish(Err(ControllerError::Other(failure))),
                StoreEvent::ModuleFound(Ok(None)) => Step::Finish(
                    Err(ControllerError::Module(ModuleServiceError::ModuleNotFound)),
                ),
                StoreEvent::ModuleFound(Ok(Some(module))) => Step::Continue(
                    ModuleUpdateState::FindingCourse { change, user },
                    StoreAction::FindCourse { id: module.course_id },
                ),
                _ => vstd::pervasive::unreached(),
            },
            ModuleUpdateState::FindingCourse { change, user } => match event {
                StoreEvent::CourseFound(Err(failure)) => Step::Finish(Err(ControllerError::Other(failure))),
                StoreEvent::CourseFound(Ok(None)) => Step::Finish(
                    Err(ControllerError::Course(CourseServiceError::CourseNotFound)),
                ),
                StoreEvent::CourseFound(Ok(Some(course))) => {
                    if course.owner_id == user {
                        Step::Continue(
                            ModuleUpdateState::Updating,
                            StoreAction::UpdateModule { id: user, module_change: change },
                        )
                    } else {
                        Step::Finish(
                            Err(ControllerError::Module(ModuleServiceError::UnauthorizedRequest)),
                        )
                    }
                },
                _ => vstd::pervasive::unreached(),
            },
            ModuleUpdateState::Updating => finish_stored(event),
        }
    }

    /// The answer of the module-creation endpoint.
    pub fn creation_reply(result: &Result<(), ControllerError>) -> (reply: HttpReply<()>)
        ensures
            match result {
                Ok(()) => reply.is_text(CREATED, "Module created successful"@),
                Err(ControllerError::Module(ModuleServiceError::BadRequest)) => reply.is_text(
                    BAD_REQUEST,
                    "Bad request"@,
                ),
                Err(ControllerError::Module(ModuleServiceError::IsNotCourseOwner)) => reply.is_text(
                    CONFLICT,
                    "Trying add module to course, when you is not course owner"@,
                ),
                Err(ControllerError::Module(ModuleServiceError::UnauthorizedRequest)) => reply.is_text(
                    UNAUTHORIZED,
                    "Trying create module in unauthorized"@,
                ),
                Err(e) => reply.is_text(INTERNAL_SERVER_ERROR, e.text()),
            },
    {
        match result {
            Ok(()) => HttpReply::text(CREATED, "Module created successful".to_owned()),
            Err(ControllerError::Module(ModuleServiceError::BadRequest)) => HttpReply::text(
                BAD_REQUEST,
                ModuleServiceError::BadRequest.message(),
            ),
            Err(ControllerError::Module(ModuleServiceError::IsNotCourseOwner)) => HttpReply::text(
                CONFLICT,
                ModuleServiceError::IsNotCourseOwner.message(),
            ),
            Err(ControllerError::Module(ModuleServiceError::UnauthorizedRequest)) => HttpReply::text(
                UNAUTHORIZED,
                ModuleServiceError::UnauthorizedRequest.message(),
            ),
            Err(e) => HttpReply::text(INTERNAL_SERVER_ERROR, e.message()),
        }
    }

    /// The answer of the module-lookup endpoint.
    pub fn lookup_reply(result: Result<ModuleModel, ControllerError>) -> (reply: HttpReply<
        ModuleModel,
    >)
        ensures
            match result {
                Ok(module) => reply.is_json(ACCEPTED, module),
                Err(ControllerError::Module(ModuleServiceError::BadRequest)) => reply.is_text(
                    BAD_REQUEST,
                    "Bad request"@,
                ),
                Err(ControllerError::Module(ModuleServiceError::ModuleNotFound)) => reply.is_text(
                    NOT_FOUND,
                    "Module not found"@,
                ),
                Err(e) => reply.is_text(INTERNAL_SERVER_ERROR, e.text()),
            },
    {
        match result {
            Ok(module) => HttpReply::json(ACCEPTED, module),
            Err(ControllerError::Module(ModuleServiceError::BadRequest)) => HttpReply::text(
                BAD_REQUEST,
                ModuleServiceError::BadRequest.message(),
            ),
            Err(ControllerError::Module(ModuleServiceError::ModuleNotFound)) => HttpReply::text(
                NOT_FOUND,
                ModuleServiceError::ModuleNotFound.message(),
            ),
            Err(e) => HttpReply::text(INTERNAL_SERVER_ERROR, e.message()),
        }
    }

    /// The answer of the module-update endpoint.
    pub fn update_reply(result: &Result<(), ControllerError>) -> (reply: HttpReply<()>)
        ensures
            match result {
                Ok(()) => reply.is_text(ACCEPTED, "Module update successful"@),
                Err(ControllerError::Module(ModuleServiceError::BadRequest)) => reply.is_text(
                    BAD_REQUEST,
                    "Bad request"@,
                ),
                Err(ControllerError::Module(ModuleServiceError::UnauthorizedRequest)) => reply.is_text(
                    UNAUTHORIZED,
                    "Trying create module in unauthorized"@,
                ),
                Err(e) => reply.is_text(INTERNAL_SERVER_ERROR, e.text()),
            },
    {
        match result {
            Ok(()) => HttpReply::text(ACCEPTED, "Module update successful".to_owned()),
            Err(ControllerError::Module(ModuleServiceError::BadRequest)) => HttpReply::text(
                BAD_REQUEST,
                ModuleServiceError::BadRequest.message(),
            ),
            Err(ControllerError::Module(ModuleServiceError::UnauthorizedRequest)) => HttpReply::text(
                UNAUTHORIZED,
                ModuleServiceError::UnauthorizedRequest.message(),
            ),
            Err(e) => HttpReply::text(INTERNAL_SERVER_ERROR, e.message()),
        }
    }
}

/// The module store.
#[derive(Debug, PartialEq, Eq)]
pub struct ModuleService;

impl ModuleService {
    /// The query that finds the modules of a course; the course id is bound as a
    /// plain string.
    pub fn find_in_course(course_id: &str) -> (query: SelectQuery)
        ensures
            query.text@ == "SELECT * FROM module WHERE course_id = $course_id"@,
            query.param@ == "course_id"@,
            query.value@ == course_id@,
            !query.record,
    {
        SelectQuery {
            text: "SELECT * FROM module WHERE course_id = $course_id".to_owned(),
            param: "course_id".to_owned(),
            value: course_id.to_owned(),
            record: false,
        }
    }

    /// The query that looks a module up by its record id (in the `course` table).
    pub fn find_by_id(id: &str) -> (query: SelectQuery)
        ensures
            query.text@ == "SELECT * FROM course WHERE id = $id"@,
            query.param@ == "id"@,
            query.value@ == id@,
            query.record,
    {
        SelectQuery {
            text: "SELECT * FROM course WHERE id = $id".to_owned(),
            param: "id".to_owned(),
            value: id.to_owned(),
            record: true,
        }
    }

    /// The record stored for a new module: its course and title, no id and no
    /// lectures yet.
    pub fn new_module(dto: ModuleModelDto) -> (module: ModuleModel)
        ensures
            module.id is None,
            module.course_id == dto.course_id,
            module.title == dto.title,
            module.lectures@.len() == 0,
    {
        ModuleModel { id: None, course_id: dto.course_id, title: dto.title, lectures: Vec::new() }
    }
}

} // verus!
