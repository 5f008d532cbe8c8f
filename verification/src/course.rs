//! Courses: the stored course, the requests of the course endpoints, and what
//! those endpoints decide and answer.

use crate::error::ControllerError;
use crate::flow::{finish_stored, signed_in, Step, StoreAction, StoreEvent};
use crate::module::{ModuleModel, ModuleServiceRequest};
use crate::reply::{
    HttpReply, ACCEPTED, BAD_REQUEST, INTERNAL_SERVER_ERROR, NOT_FOUND, UNAUTHORIZED,
};
use crate::store::SelectQuery;
use vstd::prelude::*;

verus! {

/// A request to the course endpoints.
#[derive(Debug, PartialEq, Eq)]
pub enum CourseServiceRequest {
    CreateCourse { image_id: Option<String>, title: String, description: String },
    GetCourseById { id: String },
    UpdateCourse { id: String, dto: CourseModelUpdateDto },
    DeleteCourse { id: String },
}

/// Why a course endpoint refused a request.
#[derive(Debug, PartialEq, Eq)]
pub enum CourseServiceError {
    BadRequest,
    Unauthorized,
    CourseNotFound,
}

impl CourseServiceError {
    /// The text of the error.
    pub open spec fn text(&self) -> Seq<char> {
        match self {
            CourseServiceError::BadRequest => "Bad request"@,
            CourseServiceError::Unauthorized => "Try create course with unauthorized"@,
            CourseServiceError::CourseNotFound => "Course not found"@,
        }
    }

    /// The text of the error, as it is shown to a client.
    pub fn message(&self) -> (message: String)
        ensures
            message@ == self.text(),
    {
        match self {
            CourseServiceError::BadRequest => "Bad request".to_owned(),
            CourseServiceError::Unauthorized => "Try create course with unauthorized".to_owned(),
            CourseServiceError::CourseNotFound => "Course not found".to_owned(),
        }
    }
}

/// A stored course. Record ids are kept in their text form (`table:key`); `id`
/// is absent only on a course that has not been stored yet. The rating, a
/// 32-bit floating-point value, is carried as its IEEE 754 bit pattern: the
/// library never reads it, and `0` is the rating zero.
#[derive(Debug, PartialEq, Eq)]
pub struct CourseModel {
    pub id: Option<String>,
    pub owner_id: String,
    pub image_id: Option<String>,
    pub title: String,
    pub description: String,
    pub rating_bits: u32,
    pub modules: Vec<ModuleModel>,
}

/// The fields of a course to be created.
#[derive(Debug, PartialEq, Eq)]
pub struct CourseModelDto {
    pub owner_id: String,
    pub image_id: Option<String>,
    pub title: String,
    pub description: String,
}

/// A change to a course: the fields that are present replace the stored ones.
#[derive(Debug, PartialEq, Eq)]
pub struct CourseModelUpdateDto {
    pub title: Option<String>,
    pub description: Option<String>,
    pub image_id: Option<String>,
    pub modules: Option<Vec<ModuleModel>>,
}

/// Where an update of a course stands between two calls to the store.
#[derive(Debug, PartialEq, Eq)]
pub enum CourseUpdateState {
    /// Looking the course up.
    Finding { id: String, change: CourseModelUpdateDto, owner: String },
    /// Reading the signed-in user's id as a record id, to compare it with the
    /// course's owner.
    Comparing { id: String, change: CourseModelUpdateDto, course_owner: String },
    /// Storing the change.
    Updating,
}

impl CourseUpdateState {
    /// At most how many calls to the store the request still makes, counting
    /// the one that led into this state.
    pub open spec fn calls_left(&self) -> nat {
        match self {
            CourseUpdateState::Finding { .. } => 3,
            CourseUpdateState::Comparing { .. } => 2,
            CourseUpdateState::Updating => 1,
        }
    }
}

/// The answers that an update of a course can be given in each state.
pub open spec fn course_update_event_fits(state: CourseUpdateState, event: StoreEvent) -> bool {
    match state {
        CourseUpdateState::Finding { .. } => event is CourseFound,
        CourseUpdateState::Comparing { .. } => event is RecordId,
        CourseUpdateState::Updating => event is Stored,
    }
}

/// Where a deletion of a course stands between two calls to the store.
#[derive(Debug, PartialEq, Eq)]
pub enum CourseDeletionState {
    /// Looking the course up.
    Finding { id: String, owner: String },
    /// Listing the course's modules.
    Listing { id: String },
    /// Deleting the course's modules.
    DeletingModules { id: String },
    /// Deleting the course itself.
    Removing,
}

impl CourseDeletionState {
    /// At most how many calls to the store the request still makes, counting
    /// the one that led into this state.
    pub open spec fn calls_left(&self) -> nat {
        match self {
            CourseDeletionState::Finding { .. } => 4,
            CourseDeletionState::Listing { .. } => 3,
            CourseDeletionState::DeletingModules { .. } => 2,
            CourseDeletionState::Removing => 1,
        }
    }
}

/// The answers that a deletion of a course can be given in each state. Every
/// module listed must have an id.
pub open spec fn course_deletion_event_fits(state: CourseDeletionState, event: StoreEvent) -> bool {
    match state {
        CourseDeletionState::Finding { .. } => event is CourseFound,
        CourseDeletionState::Listing { .. } => {
            &&& event is ModulesFound
            &&& (event matches StoreEvent::ModulesFound(Ok(modules)) ==> forall|i: int|
                0 <= i < modules@.len() ==> (#[trigger] modules@[i]).id is Some)
        },
        CourseDeletionState::DeletingModules { .. } => event is Stored,
        CourseDeletionState::Removing => event is Stored,
    }
}

/// The deletion requests for the modules, one per module, in order.
pub open spec fn deletes_modules(requests: Seq<ModuleServiceRequest>, modules: Seq<ModuleModel>) -> bool {
    &&& requests.len() == modules.len()
    &&& forall|i: int|
        0 <= i < modules.len() ==> (#[trigger] requests[i] matches ModuleServiceRequest::DeleteModule {
            id,
        } && id@ == modules[i].id->Some_0@)
}

/// Deleting a course asks for exactly one module deletion per module listed,
/// in the order listed, each naming that module's id: none is left out, none
/// is added, none is repeated out of order.
pub proof fn lemma_every_module_deleted(requests: Seq<ModuleServiceRequest>, modules: Seq<ModuleModel>)
    requires
        deletes_modules(requests, modules),
    ensures
        requests.len() == modules.len(),
        forall|i: int|
            0 <= i < modules.len() ==> (#[trigger] requests[i] matches ModuleServiceRequest::DeleteModule {
                id,
            } && id@ == modules[i].id->Some_0@),
{
}

/// The course endpoints.
#[derive(Debug, PartialEq, Eq)]
pub struct CourseController;

impl CourseController {
    /// Starts the creation of a course: store a course owned by the signed-in
    /// user, with no id and no modules yet. Another request is a bad request,
    /// no signed-in user is unauthorized.
    pub fn start_creation(request: CourseServiceRequest, session_id: Result<Option<String>, String>) -> (step:
        Step<(), ()>)
        ensures
            match request {
                CourseServiceRequest::CreateCourse { image_id, title, description } => {
                    match session_id {
                        Err(failure) => step.fails_with(failure@),
                        Ok(None) => step.refuses(ControllerError::Course(CourseServiceError::Unauthorized)),
                        Ok(Some(owner_id)) => {
                            &&& step matches Step::Continue((), StoreAction::CreateCourse { course })
                            &&& step->Continue_1->course.id is None
                            &&& step->Continue_1->course.owner_id == owner_id
                            &&& step->Continue_1->course.image_id == image_id
                            &&& step->Continue_1->course.title == title
                            &&& step->Continue_1->course.description == description
                            &&& step->Continue_1->course.rating_bits == 0
                            &&& step->Continue_1->course.modules@.len() == 0
                        },
                    }
                },
                _ => step.refuses(ControllerError::Course(CourseServiceError::BadRequest)),
            },
    {
        match request {
            CourseServiceRequest::CreateCourse { image_id, title, description } => {
                match signed_in(session_id, ControllerError::Course(CourseServiceError::Unauthorized)) {
                    Err(e) => Step::Finish(Err(e)),
                    Ok(owner_id) => {
                        let course = CourseService::new_course(
                            CourseModelDto { owner_id, image_id, title, description },
                        );
                        Step::Continue((), StoreAction::CreateCourse { course })
                    },
                }
            },
            _ => Step::Finish(Err(ControllerError::Course(CourseServiceError::BadRequest))),
        }
    }

    /// Ends the creation of a course with what the store answered.
    pub fn step_creation(event: StoreEvent) -> (step: Step<(), ()>)
        requires
            event is Stored,
        ensures
            match event {
                StoreEvent::Stored(Ok(())) => step == Step::<(), ()>::Finish(Ok(())),
                StoreEvent::Stored(Err(failure)) => step.fails_with(failure@),
                _ => false,
            },
    {
        finish_stored(event)
    }

    /// Starts a lookup of a course: find it by its id. Another request is a bad
    /// request.
    pub fn start_lookup(request: CourseServiceRequest) -> (step: Step<(), CourseModel>)
        ensures
            match request {
                CourseServiceRequest::GetCourseById { id } => step == Step::<(), CourseModel>::Continue(
                    (),
                    StoreAction::FindCourse { id },
                ),
                _ => step.refuses(ControllerError::Course(CourseServiceError::BadRequest)),
            },
    {
        match request {
            CourseServiceRequest::GetCourseById { id } => Step::Continue((), StoreAction::FindCourse { id }),
            _ => Step::Finish(Err(ControllerError::Course(CourseServiceError::BadRequest))),
        }
    }

    /// Ends a lookup of a course: the course found, or not found.
    pub fn step_lookup(event: StoreEvent) -> (step: Step<(), CourseModel>)
        requires
            event is CourseFound,
        ensures
            match event {
                StoreEvent::CourseFound(Err(failure)) => step.fails_with(failure@),
                StoreEvent::CourseFound(Ok(None)) => step.refuses(
                    ControllerError::Course(CourseServiceError::CourseNotFound),
                ),
                StoreEvent::CourseFound(Ok(Some(course))) => step == Step::<(), CourseModel>::Finish(
                    Ok(course),
                ),
                _ => false,
            },
    {
        match event {
            StoreEvent::CourseFound(Err(failure)) => Step::Finish(Err(ControllerError::Other(failure))),
            StoreEvent::CourseFound(Ok(None)) => Step::Finish(
                Err(ControllerError::Course(CourseServiceError::CourseNotFound)),
            ),
            StoreEvent::CourseFound(Ok(Some(course))) => Step::Finish(Ok(course)),
            _ => vstd::pervasive::unreached(),
        }
    }

    /// Starts an update of a course: find the course. Another request is a bad
    /// request, no signed-in user is unauthorized.
    pub fn start_update(request: CourseServiceRequest, session_id: Result<Option<String>, String>) -> (step:
        Step<CourseUpdateState, ()>)
        ensures
            match request {
                CourseServiceRequest::UpdateCourse { id, dto } => match session_id {
                    Err(failure) => step.fails_with(failure@),
                    Ok(None) => step.refuses(ControllerError::Course(CourseServiceError::Unauthorized)),
                    Ok(Some(owner)) => step == Step::<CourseUpdateState, ()>::Continue(
                        CourseUpdateState::Finding { id, change: dto, owner },
                        StoreAction::FindCourse { id },
                    ),
                },
                _ => step.refuses(ControllerError::Course(CourseServiceError::BadRequest)),
            },
    {
        match request {
            CourseServiceRequest::UpdateCourse { id, dto } => {
                match signed_in(session_id, ControllerError::Course(CourseServiceError::Unauthorized)) {
                    Err(e) => Step::Finish(Err(e)),
                    Ok(owner) => {
                        let wanted = id.clone();
                        Step::Continue(
                            CourseUpdateState::Finding { id, change: dto, owner },
                            StoreAction::FindCourse { id: wanted },
                        )
                    },
                }
            },
            _ => Step::Finish(Err(ControllerError::Course(CourseServiceError::BadRequest))),
        }
    }

    /// Goes on with an update of a course: a missing course is not found; the
    /// signed-in user's id is read as a record id and compared with the course's
    /// owner; the owner's change is stored, anyone else is unauthorized.
    pub fn step_update(state: CourseUpdateState, event: StoreEvent) -> (step: Step<CourseUpdateState, ()>)
        requires
            course_update_event_fits(state, event),
        ensures
            step matches Step::Continue(next, _) ==> next.calls_left() < state.calls_left(),
            match state {
                CourseUpdateState::Finding { id, change, owner } => match event {
                    StoreEvent::CourseFound(Err(failure)) => step.fails_with(failure@),
                    StoreEvent::CourseFound(Ok(None)) => step.refuses(
                        ControllerError::Course(CourseServiceError::CourseNotFound),
                    ),
                    StoreEvent::CourseFound(Ok(Some(course))) => step == Step::<
                        CourseUpdateState,
                        (),
                    >::Continue(
                        CourseUpdateState::Comparing { id, change, course_owner: course.owner_id },
                        StoreAction::CanonicalRecordId { text: owner },
                    ),
                    _ => false,
                },
                CourseUpdateState::Comparing { id, change, course_owner } => match event {
                    StoreEvent::RecordId(owner) => if course_owner@ == owner@ {
                        step == Step::<CourseUpdateState, ()>::Continue(
                            CourseUpdateState::Updating,
                            StoreAction::UpdateCourse { id, course_change: change },
                        )
                    } else {
                        step.refuses(ControllerError::Course(CourseServiceError::Unauthorized))
                    },
                    _ => false,
                },
                CourseUpdateState::Updating => match event {
                    StoreEvent::Stored(Ok(())) => step == Step::<CourseUpdateState, ()>::Finish(Ok(())),
                    StoreEvent::Stored(Err(failure)) => step.fails_with(failure@),
                    _ => false,
                },
            },
    {
        match state {
            CourseUpdateState::Finding { id, change, owner } => match event {
                StoreEvent::CourseFound(Err(failure)) => Step::Finish(Err(ControllerError::Other(failure))),
                StoreEvent::CourseFound(Ok(None)) => Step::Finish(
                    Err(ControllerError::Course(CourseServiceError::CourseNotFound)),
                ),
                StoreEvent::CourseFound(Ok(Some(course))) => Step::Continue(
                    CourseUpdateState::Comparing { id, change, course_owner: course.owner_id },
                    StoreAction::CanonicalRecordId { text: owner },
                ),
                _ => vstd::pervasive::unreached(),
            },
            CourseUpdateState::Comparing { id, change, course_owner } => match event {
                StoreEvent::RecordId(owner) => {
                    if course_owner == owner {
                        Step::Continue(
                            CourseUpdateState::Updating,
                            StoreAction::UpdateCourse { id, course_change: change },
                        )
                    } else {
                        Step::Finish(Err(ControllerError::Course(CourseServiceError::Unauthorized)))
                    }
                },
                _ => vstd::pervasive::unreached(),
            },
            CourseUpdateState::Updating => finish_stored(event),
        }
    }

    /// Starts a deletion of a course: find the course. Another request, and a
    /// deletion without a signed-in user, are bad requests.
    pub fn start_deletion(request: CourseServiceRequest, session_id: Result<Option<String>, String>) -> (step:
        Step<CourseDeletionState, ()>)
        ensures
            match request {
                CourseServiceRequest::DeleteCourse { id } => match session_id {
                    Err(failure) => step.fails_with(failure@),
                    Ok(None) => step.refuses(ControllerError::Course(CourseServiceError::BadRequest)),
                    Ok(Some(owner)) => step == Step::<CourseDeletionState, ()>::Continue(
                        CourseDeletionState::Finding { id, owner },
                        StoreAction::FindCourse { id },
                    ),
                },
                _ => step.refuses(ControllerError::Course(CourseServiceError::BadRequest)),
            },
    {
        match request {
            CourseServiceRequest::DeleteCourse { id } => {
                match signed_in(session_id, ControllerError::Course(CourseServiceError::BadRequest)) {
                    Err(e) => Step::Finish(Err(e)),
                    Ok(owner) => {
                        let wanted = id.clone();
                        Step::Continue(
                            CourseDeletionState::Finding { id, owner },
                            StoreAction::FindCourse { id: wanted },
                        )
                    },
                }
            },
            _ => Step::Finish(Err(ControllerError::Course(CourseServiceError::BadRequest))),
        }
    }

    /// Goes on with a deletion of a course: a missing course is not found, a
    /// course of someone else is unauthorized; for its owner, the course's
    /// modules are listed and deleted first, then the course.
    pub fn step_deletion(state: CourseDeletionState, event: StoreEvent) -> (step: Step<
        CourseDeletionState,
        (),
    >)
        requires
            course_deletion_event_fits(state, event),
        ensures
            step matches Step::Continue(next, _) ==> next.calls_left() < state.calls_left(),
            match state {
                CourseDeletionState::Finding { id, owner } => match event {
                    StoreEvent::CourseFound(Err(failure)) => step.fails_with(failure@),
                    StoreEvent::CourseFound(Ok(None)) => step.refuses(
                        ControllerError::Course(CourseServiceError::CourseNotFound),
                    ),
                    StoreEvent::CourseFound(Ok(Some(course))) => if course.owner_id@ == owner@ {
                        step == Step::<CourseDeletionState, ()>::Continue(
                            CourseDeletionState::Listing { id },
                            StoreAction::FindModules { course_id: id },
                        )
                    } else {
                        step.refuses(ControllerError::Course(CourseServiceError::Unauthorized))
                    },
                    _ => false,
                },
                CourseDeletionState::Listing { id } => match event {
                    StoreEvent::ModulesFound(Err(failure)) => step.fails_with(failure@),
                    StoreEvent::ModulesFound(Ok(modules)) => {
                        &&& step matches Step::Continue(
                            CourseDeletionState::DeletingModules { id: next },
                            StoreAction::DeleteModules { requests },
                        )
                        &&& step->Continue_0 == CourseDeletionState::DeletingModules { id }
                        &&& deletes_modules(step->Continue_1->requests@, modules@)
                    },
                    _ => false,
                },
                CourseDeletionState::DeletingModules { id } => match event {
                    StoreEvent::Stored(Err(failure)) => step.fails_with(failure@),
                    StoreEvent::Stored(Ok(())) => step == Step::<CourseDeletionState, ()>::Continue(
                        CourseDeletionState::Removing,
                        StoreAction::DeleteCourse { id },
                    ),
                    _ => false,
                },
                CourseDeletionState::Removing => match event {
                    StoreEvent::Stored(Ok(())) => step == Step::<CourseDeletionState, ()>::Finish(Ok(())),
                    StoreEvent::Stored(Err(failure)) => step.fails_with(failure@),
                    _ => false,
                },
            },
    {
        match state {
            CourseDeletionState::Finding { id, owner } => match event {
                StoreEvent::CourseFound(Err(failure)) => Step::Finish(Err(ControllerError::Other(failure))),
                StoreEvent::CourseFound(Ok(None)) => Step::Finish(
                    Err(ControllerError::Course(CourseServiceError::CourseNotFound)),
                ),
                StoreEvent::CourseFound(Ok(Some(course))) => {
                    if course.owner_id == owner {
                        let course_id = id.clone();
                        Step::Continue(
                            CourseDeletionState::Listing { id },
                            StoreAction::FindModules { course_id },
                        )
                    } else {
                        Step::Finish(Err(ControllerError::Course(CourseServiceError::Unauthorized)))
                    }
                },
                _ => vstd::pervasive::unreached(),
            },
            CourseDeletionState::Listing { id } => match event {
                StoreEvent::ModulesFound(Err(failure)) => Step::Finish(Err(ControllerError::Other(failure))),
                StoreEvent::ModulesFound(Ok(modules)) => {
                    let requests = Self::module_deletions(&modules);
                    Step::Continue(
                        CourseDeletionState::DeletingModules { id },
                        StoreAction::DeleteModules { requests },
                    )
                },
                _ => vstd::pervasive::unreached(),
            },
            CourseDeletionState::DeletingModules { id } => match event {
                StoreEvent::Stored(Err(failure)) => Step::Finish(Err(ControllerError::Other(failure))),
                StoreEvent::Stored(Ok(())) => Step::Continue(
                    CourseDeletionState::Removing,
                    StoreAction::DeleteCourse { id },
                ),
                _ => vstd::pervasive::unreached(),
            },
            CourseDeletionState::Removing => finish_stored(event),
        }
    }

    /// Deleting a course deletes its modules first: one deletion request per
    /// module, in order. Every module must have an id.
    pub fn module_deletions(modules: &Vec<ModuleModel>) -> (requests: Vec<ModuleServiceRequest>)
        requires
            forall|i: int| 0 <= i < modules@.len() ==> (#[trigger] modules@[i]).id is Some,
        ensures
            deletes_modules(requests@, modules@),
            requests@.len() == modules@.len(),
            forall|i: int|
                0 <= i < modules@.len() ==> (#[trigger] requests@[i] matches ModuleServiceRequest::DeleteModule {
                    id,
                } && id@ == modules@[i].id->Some_0@),
    {
        let mut requests: Vec<ModuleServiceRequest> = Vec::new();
        let mut i: usize = 0;
        while i < modules.len()
            invariant
                i <= modules@.len(),
                requests@.len() == i,
                forall|j: int| 0 <= j < modules@.len() ==> (#[trigger] modules@[j]).id is Some,
                forall|j: int|
                    0 <= j < i ==> (#[trigger] requests@[j] matches ModuleServiceRequest::DeleteModule {
                        id,
                    } && id@ == modules@[j].id->Some_0@),
            decreases modules@.len() - i,
        {
            let id = match &modules[i].id {
                Some(id) => id.clone(),
                None => String::new(),
            };
            requests.push(ModuleServiceRequest::DeleteModule { id });
            i = i + 1;
        }
        requests
    }

    /// The answer of the course-creation endpoint.
    pub fn creation_reply(result: &Result<(), ControllerError>) -> (reply: HttpReply<()>)
        ensures
            match result {
                Ok(()) => reply.is_text(ACCEPTED, "Course created successful"@),
                Err(ControllerError::Course(CourseServiceError::BadRequest)) => reply.is_text(
                    BAD_REQUEST,
                    "Bad request"@,
                ),
                Err(ControllerError::Course(CourseServiceError::Unauthorized)) => reply.is_text(
                    UNAUTHORIZED,
                    "Try create course with unauthorized"@,
                ),
                Err(e) => reply.is_text(INTERNAL_SERVER_ERROR, e.text()),
            },
    {
        match result {
            Ok(()) => HttpReply::text(ACCEPTED, "Course created successful".to_owned()),
            Err(ControllerError::Course(CourseServiceError::BadRequest)) => HttpReply::text(
                BAD_REQUEST,
                CourseServiceError::BadRequest.message(),
            ),
            Err(ControllerError::Course(CourseServiceError::Unauthorized)) => HttpReply::text(
                UNAUTHORIZED,
                CourseServiceError::Unauthorized.message(),
            ),
            Err(e) => HttpReply::text(INTERNAL_SERVER_ERROR, e.message()),
        }
    }

    /// The answer of the course-lookup endpoint.
    pub fn lookup_reply(result: Result<CourseModel, ControllerError>) -> (reply: HttpReply<
        CourseModel,
    >)
        ensures
            match result {
                Ok(course) => reply.is_json(ACCEPTED, course),
                Err(ControllerError::Course(CourseServiceError::BadRequest)) => reply.is_text(
                    BAD_REQUEST,
                    "Bad request"@,
                ),
                Err(ControllerError::Course(CourseServiceError::CourseNotFound)) => reply.is_text(
                    NOT_FOUND,
                    "Course not found"@,
                ),
                Err(e) => reply.is_text(INTERNAL_SERVER_ERROR, e.text()),
            },
    {
        match result {
            Ok(course) => HttpReply::json(ACCEPTED, course),
            Err(ControllerError::Course(CourseServiceError::BadRequest)) => HttpReply::text(
                BAD_REQUEST,
                CourseServiceError::BadRequest.message(),
            ),
            Err(ControllerError::Course(CourseServiceError::CourseNotFound)) => HttpReply::text(
                NOT_FOUND,
                CourseServiceError::CourseNotFound.message(),
            ),
            Err(e) => HttpReply::text(INTERNAL_SERVER_ERROR, e.message()),
        }
    }

    /// The answer of the course-update endpoint.
    pub fn update_reply(result: &Result<(), ControllerError>) -> (reply: HttpReply<()>)
        ensures
            match result {
                Ok(()) => reply.is_text(ACCEPTED, "Course update successful"@),
                Err(ControllerError::Course(CourseServiceError::BadRequest)) => reply.is_text(
                    BAD_REQUEST,
                    "Bad request"@,
                ),
                Err(ControllerError::Course(CourseServiceError::Unauthorized)) => reply.is_text(
                    UNAUTHORIZED,
                    "Try create course with unauthorized"@,
                ),
                Err(ControllerError::Course(CourseServiceError::CourseNotFound)) => reply.is_text(
                    NOT_FOUND,
                    "Course not found"@,
                ),
                Err(e) => reply.is_text(INTERNAL_SERVER_ERROR, e.text()),
            },
    {
        match result {
            Ok(()) => HttpReply::text(ACCEPTED, "Course update successful".to_owned()),
            Err(ControllerError::Course(CourseServiceError::BadRequest)) => HttpReply::text(
                BAD_REQUEST,
                CourseServiceError::BadRequest.message(),
            ),
            Err(ControllerError::Course(CourseServiceError::Unauthorized)) => HttpReply::text(
                UNAUTHORIZED,
                CourseServiceError::Unauthorized.message(),
            ),
            Err(ControllerError::Course(CourseServiceError::CourseNotFound)) => HttpReply::text(
                NOT_FOUND,
                CourseServiceError::CourseNotFound.message(),
            ),
            Err(e) => HttpReply::text(INTERNAL_SERVER_ERROR, e.message()),
        }
    }

    /// The answer of the endpoint that lists every course.
    pub fn list_reply(result: Result<Vec<CourseModel>, ControllerError>) -> (reply: HttpReply<
        Vec<CourseModel>,
    >)
        ensures
            match result {
                Ok(courses) => reply.is_json(ACCEPTED, courses),
                Err(e) => reply.is_text(INTERNAL_SERVER_ERROR, e.text()),
            },
    {
        match result {
            Ok(courses) => HttpReply::json(ACCEPTED, courses),
            Err(e) => HttpReply::text(INTERNAL_SERVER_ERROR, e.message()),
        }
    }

    /// The answer of the course-deletion endpoint.
    pub fn deletion_reply(result: &Result<(), ControllerError>) -> (reply: HttpReply<()>)
        ensures
            match result {
                Ok(()) => reply.is_text(ACCEPTED, "Course deleted successful"@),
                Err(ControllerError::Course(CourseServiceError::BadRequest)) => reply.is_text(
                    BAD_REQUEST,
                    "Bad request"@,
                ),
                Err(ControllerError::Course(CourseServiceError::CourseNotFound)) => reply.is_text(
                    NOT_FOUND,
                    "Course not found"@,
                ),
                Err(ControllerError::Course(CourseServiceError::Unauthorized)) => reply.is_text(
                    UNAUTHORIZED,
                    "Try create course with unauthorized"@,
                ),
                Err(e) => reply.is_text(INTERNAL_SERVER_ERROR, e.text()),
            },
    {
        match result {
            Ok(()) => HttpReply::text(ACCEPTED, "Course deleted successful".to_owned()),
            Err(ControllerError::Course(CourseServiceError::BadRequest)) => HttpReply::text(
                BAD_REQUEST,
                CourseServiceError::BadRequest.message(),
            ),
            Err(ControllerError::Course(CourseServiceError::CourseNotFound)) => HttpReply::text(
                NOT_FOUND,
                CourseServiceError::CourseNotFound.message(),
            ),
            Err(ControllerError::Course(CourseServiceError::Unauthorized)) => HttpReply::text(
                UNAUTHORIZED,
                CourseServiceError::Unauthorized.message(),
            ),
            Err(e) => HttpReply::text(INTERNAL_SERVER_ERROR, e.message()),
        }
    }
}

/// The course store.
#[derive(Debug, PartialEq, Eq)]
pub struct CourseService;

impl CourseService {
    /// The query that finds the course with a given record id.
    pub fn find_by_id(id: &str) -> (query: SelectQuery)
        ensures
            query.text@ == "SELECT * FROM course WHERE id = $id"@,
            query.param@ == "id"@,
            query.value@ == id@,
            query.record,
    {
        SelectQuery {
            text: "SELECT * FROM course WHERE id = $id".to_owned(),
            param: "id".to_owned(),
            value: id.to_owned(),
            record: true,
        }
    }

    /// The query that finds the course owned by a given user.
    pub fn find_by_owner(owner_id: &str) -> (query: SelectQuery)
        ensures
            query.text@ == "SELECT * FROM course WHERE owner_id = $owner_id"@,
            query.param@ == "owner_id"@,
            query.value@ == owner_id@,
            query.record,
    {
        SelectQuery {
            text: "SELECT * FROM course WHERE owner_id = $owner_id".to_owned(),
            param: "owner_id".to_owned(),
            value: owner_id.to_owned(),
            record: true,
        }
    }

    /// The record stored for a new course: the fields of the request, no id
    /// yet, a rating of zero and no modules.
    pub fn new_course(dto: CourseModelDto) -> (course: CourseModel)
        ensures
            course.id is None,
            course.owner_id == dto.owner_id,
            course.image_id == dto.image_id,
            course.title == dto.title,
            course.description == dto.description,
            course.rating_bits == 0,
            course.modules@.len() == 0,
    {
        CourseModel {
            id: None,
            owner_id: dto.owner_id,
            image_id: dto.image_id,
            title: dto.title,
            description: dto.description,
            rating_bits: 0,
            modules: Vec::new(),
        }
    }
}

} // verus!
