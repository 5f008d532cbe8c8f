use copycat_code::course::{
    CourseController, CourseDeletionState, CourseModel, CourseModelDto, CourseModelUpdateDto,
    CourseService, CourseServiceError, CourseServiceRequest, CourseUpdateState,
};
use copycat_code::flow::{Step, StoreAction, StoreEvent};
use copycat_code::error::ControllerError;
use copycat_code::module::{ModuleModel, ModuleServiceRequest};
use copycat_code::reply::{HttpReply, ReplyBody};

fn module(id: &str) -> ModuleModel {
    ModuleModel { id: Some(id.to_string()), course_id: "course:c1".to_string(), title: "m".to_string(), lectures: vec![] }
}

fn course(owner: &str) -> CourseModel {
    CourseModel {
        id: Some("course:c1".to_string()),
        owner_id: owner.to_string(),
        image_id: None,
        title: "Rust".to_string(),
        description: "Learn Rust".to_string(),
        rating_bits: 0,
        modules: vec![],
    }
}

fn empty_change() -> CourseModelUpdateDto {
    CourseModelUpdateDto { title: Some("New".to_string()), description: None, image_id: None, modules: None }
}

fn text<T>(reply: &HttpReply<T>) -> (u16, String) {
    match &reply.body {
        ReplyBody::Text(t) => (reply.status, t.clone()),
        _ => panic!("not a text reply"),
    }
}

fn create() -> CourseServiceRequest {
    CourseServiceRequest::CreateCourse {
        image_id: Some("image:1".to_string()),
        title: "Rust".to_string(),
        description: "Learn Rust".to_string(),
    }
}

#[test]
fn course_error_messages() {
    assert_eq!(CourseServiceError::BadRequest.message(), "Bad request");
    assert_eq!(CourseServiceError::Unauthorized.message(), "Try create course with unauthorized");
    assert_eq!(CourseServiceError::CourseNotFound.message(), "Course not found");
}

#[test]
fn creation_of_a_course() {
    assert_eq!(
        CourseController::start_creation(create(), Ok(Some("user:1".to_string()))),
        Step::Continue(
            (),
            StoreAction::CreateCourse {
                course: CourseModel {
                    id: None,
                    owner_id: "user:1".to_string(),
                    image_id: Some("image:1".to_string()),
                    title: "Rust".to_string(),
                    description: "Learn Rust".to_string(),
                    rating_bits: 0,
                    modules: vec![],
                },
            },
        )
    );
    assert_eq!(
        CourseController::start_creation(create(), Ok(None)),
        Step::Finish(Err(ControllerError::Course(CourseServiceError::Unauthorized)))
    );
    assert_eq!(
        CourseController::start_creation(create(), Err("cookie".to_string())),
        Step::Finish(Err(ControllerError::Other("cookie".to_string())))
    );
    let other = CourseServiceRequest::GetCourseById { id: "course:1".to_string() };
    assert_eq!(
        CourseController::start_creation(other, Err("cookie".to_string())),
        Step::Finish(Err(ControllerError::Course(CourseServiceError::BadRequest)))
    );
    assert_eq!(CourseController::step_creation(StoreEvent::Stored(Ok(()))), Step::Finish(Ok(())));
}

#[test]
fn lookup_keeps_the_stored_rating() {
    let rated = CourseModel { rating_bits: 4.5f32.to_bits(), ..course("user:1") };
    let step = CourseController::step_lookup(StoreEvent::CourseFound(Ok(Some(rated))));
    match step {
        Step::Finish(Ok(found)) => assert_eq!(f32::from_bits(found.rating_bits), 4.5),
        other => panic!("unexpected step {:?}", other),
    }
}

#[test]
fn lookup_of_a_course() {
    let request = CourseServiceRequest::GetCourseById { id: "course:1".to_string() };
    assert_eq!(
        CourseController::start_lookup(request),
        Step::Continue((), StoreAction::FindCourse { id: "course:1".to_string() })
    );
    assert_eq!(
        CourseController::start_lookup(create()),
        Step::Finish(Err(ControllerError::Course(CourseServiceError::BadRequest)))
    );
    assert_eq!(
        CourseController::step_lookup(StoreEvent::CourseFound(Ok(Some(course("user:1"))))),
        Step::Finish(Ok(course("user:1")))
    );
    assert_eq!(
        CourseController::step_lookup(StoreEvent::CourseFound(Ok(None))),
        Step::Finish(Err(ControllerError::Course(CourseServiceError::CourseNotFound)))
    );
    assert_eq!(
        CourseController::step_lookup(StoreEvent::CourseFound(Err("db".to_string()))),
        Step::Finish(Err(ControllerError::Other("db".to_string())))
    );
}

fn update_request() -> CourseServiceRequest {
    CourseServiceRequest::UpdateCourse { id: "course:c1".to_string(), dto: empty_change() }
}

#[test]
fn update_of_a_course_by_its_owner() {
    let step = CourseController::start_update(update_request(), Ok(Some("user:1".to_string())));
    let finding = CourseUpdateState::Finding {
        id: "course:c1".to_string(),
        change: empty_change(),
        owner: "user:1".to_string(),
    };
    assert_eq!(step, Step::Continue(finding, StoreAction::FindCourse { id: "course:c1".to_string() }));
    let finding = CourseUpdateState::Finding {
        id: "course:c1".to_string(),
        change: empty_change(),
        owner: "user:1".to_string(),
    };
    let step = CourseController::step_update(finding, StoreEvent::CourseFound(Ok(Some(course("user:1")))));
    let comparing = CourseUpdateState::Comparing {
        id: "course:c1".to_string(),
        change: empty_change(),
        course_owner: "user:1".to_string(),
    };
    assert_eq!(
        step,
        Step::Continue(comparing, StoreAction::CanonicalRecordId { text: "user:1".to_string() })
    );
    let comparing = CourseUpdateState::Comparing {
        id: "course:c1".to_string(),
        change: empty_change(),
        course_owner: "user:1".to_string(),
    };
    assert_eq!(
        CourseController::step_update(comparing, StoreEvent::RecordId("user:1".to_string())),
        Step::Continue(
            CourseUpdateState::Updating,
            StoreAction::UpdateCourse { id: "course:c1".to_string(), course_change: empty_change() },
        )
    );
    assert_eq!(
        CourseController::step_update(CourseUpdateState::Updating, StoreEvent::Stored(Ok(()))),
        Step::Finish(Ok(()))
    );
}

#[test]
fn course_update_refusals() {
    assert_eq!(
        CourseController::start_update(update_request(), Ok(None)),
        Step::Finish(Err(ControllerError::Course(CourseServiceError::Unauthorized)))
    );
    assert_eq!(
        CourseController::start_update(create(), Ok(Some("user:1".to_string()))),
        Step::Finish(Err(ControllerError::Course(CourseServiceError::BadRequest)))
    );
    let finding = CourseUpdateState::Finding {
        id: "course:c1".to_string(),
        change: empty_change(),
        owner: "user:1".to_string(),
    };
    assert_eq!(
        CourseController::step_update(finding, StoreEvent::CourseFound(Ok(None))),
        Step::Finish(Err(ControllerError::Course(CourseServiceError::CourseNotFound)))
    );
    let comparing = CourseUpdateState::Comparing {
        id: "course:c1".to_string(),
        change: empty_change(),
        course_owner: "user:1".to_string(),
    };
    assert_eq!(
        CourseController::step_update(comparing, StoreEvent::RecordId("user:2".to_string())),
        Step::Finish(Err(ControllerError::Course(CourseServiceError::Unauthorized)))
    );
    assert_eq!(
        CourseController::step_update(CourseUpdateState::Updating, StoreEvent::Stored(Err("db".to_string()))),
        Step::Finish(Err(ControllerError::Other("db".to_string())))
    );
}

fn delete_request() -> CourseServiceRequest {
    CourseServiceRequest::DeleteCourse { id: "course:c1".to_string() }
}

fn finding_for(owner: &str) -> CourseDeletionState {
    CourseDeletionState::Finding { id: "course:c1".to_string(), owner: owner.to_string() }
}

#[test]
fn deletion_of_a_course_by_its_owner() {
    assert_eq!(
        CourseController::start_deletion(delete_request(), Ok(Some("user:1".to_string()))),
        Step::Continue(finding_for("user:1"), StoreAction::FindCourse { id: "course:c1".to_string() })
    );
    assert_eq!(
        CourseController::step_deletion(finding_for("user:1"), StoreEvent::CourseFound(Ok(Some(course("user:1"))))),
        Step::Continue(
            CourseDeletionState::Listing { id: "course:c1".to_string() },
            StoreAction::FindModules { course_id: "course:c1".to_string() },
        )
    );
    let listing = CourseDeletionState::Listing { id: "course:c1".to_string() };
    assert_eq!(
        CourseController::step_deletion(listing, StoreEvent::ModulesFound(Ok(vec![module("module:a"), module("module:b")]))),
        Step::Continue(
            CourseDeletionState::DeletingModules { id: "course:c1".to_string() },
            StoreAction::DeleteModules {
                requests: vec![
                    ModuleServiceRequest::DeleteModule { id: "module:a".to_string() },
                    ModuleServiceRequest::DeleteModule { id: "module:b".to_string() },
                ],
            },
        )
    );
    let deleting = CourseDeletionState::DeletingModules { id: "course:c1".to_string() };
    assert_eq!(
        CourseController::step_deletion(deleting, StoreEvent::Stored(Ok(()))),
        Step::Continue(CourseDeletionState::Removing, StoreAction::DeleteCourse { id: "course:c1".to_string() })
    );
    assert_eq!(
        CourseController::step_deletion(CourseDeletionState::Removing, StoreEvent::Stored(Ok(()))),
        Step::Finish(Ok(()))
    );
}

#[test]
fn deletion_refusals() {
    assert_eq!(
        CourseController::start_deletion(delete_request(), Ok(None)),
        Step::Finish(Err(ControllerError::Course(CourseServiceError::BadRequest)))
    );
    assert_eq!(
        CourseController::start_deletion(delete_request(), Err("x".to_string())),
        Step::Finish(Err(ControllerError::Other("x".to_string())))
    );
    assert_eq!(
        CourseController::start_deletion(create(), Ok(Some("user:1".to_string()))),
        Step::Finish(Err(ControllerError::Course(CourseServiceError::BadRequest)))
    );
    assert_eq!(
        CourseController::step_deletion(finding_for("user:2"), StoreEvent::CourseFound(Ok(Some(course("user:1"))))),
        Step::Finish(Err(ControllerError::Course(CourseServiceError::Unauthorized)))
    );
    assert_eq!(
        CourseController::step_deletion(finding_for("user:1"), StoreEvent::CourseFound(Ok(None))),
        Step::Finish(Err(ControllerError::Course(CourseServiceError::CourseNotFound)))
    );
    let listing = CourseDeletionState::Listing { id: "course:c1".to_string() };
    assert_eq!(
        CourseController::step_deletion(listing, StoreEvent::ModulesFound(Err("db".to_string()))),
        Step::Finish(Err(ControllerError::Other("db".to_string())))
    );
    let deleting = CourseDeletionState::DeletingModules { id: "course:c1".to_string() };
    assert_eq!(
        CourseController::step_deletion(deleting, StoreEvent::Stored(Err("db".to_string()))),
        Step::Finish(Err(ControllerError::Other("db".to_string())))
    );
}

#[test]
fn deleting_a_course_deletes_each_module() {
    let requests = CourseController::module_deletions(&vec![module("module:a"), module("module:b")]);
    assert_eq!(
        requests,
        vec![
            ModuleServiceRequest::DeleteModule { id: "module:a".to_string() },
            ModuleServiceRequest::DeleteModule { id: "module:b".to_string() },
        ]
    );
    assert!(CourseController::module_deletions(&vec![]).is_empty());
}

#[test]
fn course_replies() {
    assert_eq!(text(&CourseController::creation_reply(&Ok(()))), (202, "Course created successful".to_string()));
    let unauthorized = Err(ControllerError::Course(CourseServiceError::Unauthorized));
    assert_eq!(
        text(&CourseController::creation_reply(&unauthorized)),
        (401, "Try create course with unauthorized".to_string())
    );
    let bad = Err(ControllerError::Course(CourseServiceError::BadRequest));
    assert_eq!(text(&CourseController::creation_reply(&bad)), (400, "Bad request".to_string()));
    let missing = Err(ControllerError::Course(CourseServiceError::CourseNotFound));
    assert_eq!(text(&CourseController::creation_reply(&missing)), (500, "Course not found".to_string()));

    assert_eq!(
        CourseController::lookup_reply(Ok(course("user:1"))),
        HttpReply { status: 202, body: ReplyBody::Json(course("user:1")) }
    );
    let missing = Err(ControllerError::Course(CourseServiceError::CourseNotFound));
    assert_eq!(text(&CourseController::lookup_reply(missing)), (404, "Course not found".to_string()));
    let other = Err(ControllerError::Other("db".to_string()));
    assert_eq!(text(&CourseController::lookup_reply(other)), (500, "db".to_string()));

    assert_eq!(text(&CourseController::update_reply(&Ok(()))), (202, "Course update successful".to_string()));
    assert_eq!(text(&CourseController::update_reply(&unauthorized)), (401, "Try create course with unauthorized".to_string()));
    assert_eq!(text(&CourseController::update_reply(&missing_unit())), (404, "Course not found".to_string()));
    assert_eq!(text(&CourseController::update_reply(&bad)), (400, "Bad request".to_string()));

    assert_eq!(
        CourseController::list_reply(Ok(vec![course("user:1")])),
        HttpReply { status: 202, body: ReplyBody::Json(vec![course("user:1")]) }
    );
    assert_eq!(text(&CourseController::list_reply(Err(ControllerError::Other("db".to_string())))), (500, "db".to_string()));

    assert_eq!(text(&CourseController::deletion_reply(&Ok(()))), (202, "Course deleted successful".to_string()));
    assert_eq!(text(&CourseController::deletion_reply(&bad)), (400, "Bad request".to_string()));
    assert_eq!(text(&CourseController::deletion_reply(&missing_unit())), (404, "Course not found".to_string()));
    assert_eq!(text(&CourseController::deletion_reply(&unauthorized)), (401, "Try create course with unauthorized".to_string()));
    assert_eq!(
        text(&CourseController::deletion_reply(&Err(ControllerError::Other("db".to_string())))),
        (500, "db".to_string())
    );
}

fn missing_unit() -> Result<(), ControllerError> {
    Err(ControllerError::Course(CourseServiceError::CourseNotFound))
}

#[test]
fn course_queries_and_records() {
    let query = CourseService::find_by_id("course:1");
    assert_eq!(query.text, "SELECT * FROM course WHERE id = $id");
    assert_eq!(query.param, "id");
    assert_eq!(query.value, "course:1");
    assert!(query.record);
    let query = CourseService::find_by_owner("user:1");
    assert_eq!(query.text, "SELECT * FROM course WHERE owner_id = $owner_id");
    assert_eq!(query.param, "owner_id");
    assert!(query.record);
    let created = CourseService::new_course(CourseModelDto {
        owner_id: "user:1".to_string(),
        image_id: None,
        title: "Rust".to_string(),
        description: "Learn Rust".to_string(),
    });
    assert_eq!(created, CourseModel { id: None, ..course("user:1") });
}
