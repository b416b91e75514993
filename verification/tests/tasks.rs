//! The task lifecycle: status precedence, the guard round trip, and the
//! request validation.

use coachcore::commons::chassis::ServiceError;
use coachcore::models::tasks::{
    ChangeCoachTaskStateRequest, ChangeMemberTaskStateRequest, CoachTargetState,
    MemberTargetState, NewTaskRequest, Task, TaskStatus, UpdateClosingNoteRequest,
    UpdateResponseRequest, UpdateTaskRequest,
};
use coachcore::services::tasks::{
    change_coach_task_state, change_member_task_state, create_task, get_tasks,
    update_closing_notes, update_response, update_task,
};
use coachcore::store::Store;

const NOW: i64 = 1_600_000_000;

fn task_request(start_time: &str) -> NewTaskRequest {
    NewTaskRequest {
        enrollment_id: "9".to_string(),
        actor_id: "3".to_string(),
        start_time: start_time.to_string(),
        duration: 2,
        description: "Warm-up plan".to_string(),
        name: "Warm-up".to_string(),
    }
}

fn store_with_task() -> (Store, Task) {
    let mut store = Store::new();
    let task = create_task(&mut store, &task_request("2030-01-01 10:00:00"), NOW)
        .expect("task creation");
    (store, task)
}

#[test]
fn created_task_schedules_duration_hours() {
    let (_store, task) = store_with_task();
    let start = coachcore::temporal::parse_date_time("2030-01-01 10:00:00").expect("parses");
    assert_eq!(task.scheduleStart(), start);
    assert_eq!(task.scheduleEnd(), start + 2 * 3600);
    assert_eq!(task.duration(), 2);
    assert_eq!(task.name(), "Warm-up");
    assert_eq!(task.description(), "Warm-up plan");
    assert_eq!(task.enrollmentId(), "9");
    assert_eq!(task.actorId(), "3");
    assert_eq!(task.response(), "");
    assert_eq!(task.closingNotes(), "");
    assert_eq!(task.status_at(NOW), TaskStatus::PLANNED);
}

#[test]
fn status_precedence_cancelled_beats_done() {
    let (_store, mut task) = store_with_task();
    task.cancelled_at = Some(NOW + 10);
    task.actual_end_date = Some(NOW + 20);
    assert_eq!(task.status_at(NOW + 100), TaskStatus::CANCELLED);
    // Uncancelled, the same markers read DONE.
    task.cancelled_at = None;
    assert_eq!(task.status_at(NOW + 100), TaskStatus::DONE);
}

#[test]
fn status_walks_the_precedence_chain() {
    let (_store, mut task) = store_with_task();
    let start = task.scheduleStart();
    let end = task.scheduleEnd();
    assert_eq!(task.status_at(start - 1), TaskStatus::PLANNED);
    assert_eq!(task.status_at(start + 1), TaskStatus::DUE);
    task.actual_start_date = Some(start + 1);
    assert_eq!(task.status_at(start + 2), TaskStatus::PROGRESS);
    assert_eq!(task.status_at(end + 1), TaskStatus::DELAY);
    task.responded_date = Some(end);
    assert_eq!(task.status_at(end + 1), TaskStatus::RESPONDED);
    task.actual_end_date = Some(end);
    assert_eq!(task.status_at(end + 1), TaskStatus::DONE);
}

#[test]
fn guard_round_trip_through_the_lifecycle() {
    let (mut store, task) = store_with_task();
    let id = task.id.clone();
    // Fresh: cancellable and startable, nothing else.
    assert!(task.can_cancel());
    assert!(task.can_start());
    assert!(!task.can_respond());
    assert!(!task.can_finish());
    assert!(!task.can_complete());
    assert!(!task.can_reopen());

    // Member starts.
    let started = change_member_task_state(
        &mut store,
        &ChangeMemberTaskStateRequest { id: id.clone(), target_state: MemberTargetState::START },
        NOW + 1,
    )
    .expect("start");
    assert!(started.can_respond());
    assert!(!started.can_finish());

    // Finishing without a response text is refused.
    let premature = change_member_task_state(
        &mut store,
        &ChangeMemberTaskStateRequest { id: id.clone(), target_state: MemberTargetState::FINISH },
        NOW + 2,
    );
    assert!(matches!(premature, Err(ServiceError::IllegalStateTransition)));

    // Member writes the response, then finishes.
    let responded = update_response(
        &mut store,
        &UpdateResponseRequest { id: id.clone(), response: "All done".to_string() },
    )
    .expect("respond");
    assert!(responded.can_finish());
    let finished = change_member_task_state(
        &mut store,
        &ChangeMemberTaskStateRequest { id: id.clone(), target_state: MemberTargetState::FINISH },
        NOW + 3,
    )
    .expect("finish");
    assert_eq!(finished.status_at(NOW + 4), TaskStatus::RESPONDED);
    assert!(finished.can_reopen());
    assert!(finished.can_complete());

    // Coach approves: the task is done.
    let done = change_coach_task_state(
        &mut store,
        &ChangeCoachTaskStateRequest { id: id.clone(), target_state: CoachTargetState::DONE },
        NOW + 5,
    )
    .expect("complete");
    assert_eq!(done.status_at(NOW + 6), TaskStatus::DONE);
    assert_eq!(done.actualEnd(), Some(NOW + 5));
}

#[test]
fn cancel_closes_every_door() {
    let (mut store, task) = store_with_task();
    let id = task.id.clone();
    let cancelled = change_coach_task_state(
        &mut store,
        &ChangeCoachTaskStateRequest { id: id.clone(), target_state: CoachTargetState::CANCEL },
        NOW + 1,
    )
    .expect("cancel");
    assert_eq!(cancelled.status_at(NOW + 2), TaskStatus::CANCELLED);
    assert!(!cancelled.can_cancel());
    assert!(!cancelled.can_start());
    assert!(!cancelled.can_respond());
    assert!(!cancelled.can_finish());
    assert!(!cancelled.can_complete());

    let again = change_coach_task_state(
        &mut store,
        &ChangeCoachTaskStateRequest { id, target_state: CoachTargetState::CANCEL },
        NOW + 3,
    );
    assert!(matches!(again, Err(ServiceError::IllegalStateTransition)));
}

#[test]
fn reopen_clears_markers_but_keeps_the_response() {
    let (mut store, task) = store_with_task();
    let id = task.id.clone();
    change_member_task_state(
        &mut store,
        &ChangeMemberTaskStateRequest { id: id.clone(), target_state: MemberTargetState::START },
        NOW + 1,
    )
    .expect("start");
    update_response(
        &mut store,
        &UpdateResponseRequest { id: id.clone(), response: "First pass".to_string() },
    )
    .expect("respond");
    change_member_task_state(
        &mut store,
        &ChangeMemberTaskStateRequest { id: id.clone(), target_state: MemberTargetState::FINISH },
        NOW + 2,
    )
    .expect("finish");

    let reopened = change_coach_task_state(
        &mut store,
        &ChangeCoachTaskStateRequest { id: id.clone(), target_state: CoachTargetState::REOPEN },
        NOW + 3,
    )
    .expect("reopen");
    // The responded and start markers are cleared...
    assert!(reopened.respondedDate().is_none());
    assert!(reopened.actualStart().is_none());
    assert!(!reopened.can_respond());
    assert!(!reopened.can_reopen());
    assert!(reopened.can_start());
    // ...but the historical response text is retained.
    assert_eq!(reopened.response(), "First pass");
}

#[test]
fn reopen_needs_a_recorded_response() {
    let (mut store, task) = store_with_task();
    let r = change_coach_task_state(
        &mut store,
        &ChangeCoachTaskStateRequest { id: task.id.clone(), target_state: CoachTargetState::REOPEN },
        NOW + 1,
    );
    assert!(matches!(r, Err(ServiceError::IllegalStateTransition)));
}

#[test]
fn plain_edits_stop_once_responding_began() {
    let (mut store, task) = store_with_task();
    let id = task.id.clone();
    let edit = UpdateTaskRequest {
        id: id.clone(),
        name: "Cool-down".to_string(),
        description: "Cool-down plan".to_string(),
        start_time: "2030-02-01 10:00:00".to_string(),
        duration: 3,
    };
    let edited = update_task(&mut store, &edit, NOW + 1).expect("edit");
    assert_eq!(edited.name(), "Cool-down");
    assert_eq!(edited.duration(), 3);
    let start = coachcore::temporal::parse_date_time("2030-02-01 10:00:00").expect("parses");
    assert_eq!(edited.scheduleStart(), start);
    assert_eq!(edited.scheduleEnd(), start + 3 * 3600);

    change_member_task_state(
        &mut store,
        &ChangeMemberTaskStateRequest { id: id.clone(), target_state: MemberTargetState::START },
        NOW + 2,
    )
    .expect("start");
    update_response(
        &mut store,
        &UpdateResponseRequest { id: id.clone(), response: "Half way".to_string() },
    )
    .expect("respond");
    change_member_task_state(
        &mut store,
        &ChangeMemberTaskStateRequest { id: id.clone(), target_state: MemberTargetState::FINISH },
        NOW + 3,
    )
    .expect("finish");

    let refused = update_task(&mut store, &edit, NOW + 4);
    assert!(matches!(refused, Err(ServiceError::IllegalStateTransition)));

    let notes = update_closing_notes(
        &mut store,
        &UpdateClosingNoteRequest { id: id.clone(), notes: "Good work".to_string() },
    )
    .expect("closing notes");
    assert_eq!(notes.closingNotes(), "Good work");
}

#[test]
fn missing_tasks_are_reported() {
    let mut store = Store::new();
    let r = update_response(
        &mut store,
        &UpdateResponseRequest { id: "5".to_string(), response: "x".to_string() },
    );
    assert!(matches!(r, Err(ServiceError::TaskNotFound)));
}

#[test]
fn task_listing_filters_by_enrollment() {
    let (mut store, task) = store_with_task();
    let mut other = task_request("2030-01-01 10:00:00");
    other.enrollment_id = "8".to_string();
    create_task(&mut store, &other, NOW).expect("second task");

    let rows = get_tasks(
        &store,
        &coachcore::models::enrollments::PlanCriteria { enrollment_id: "9".to_string() },
    )
    .expect("listing");
    assert_eq!(rows.len(), 1);
    assert_eq!(rows[0].id(), task.id());
}

#[test]
fn task_request_validation_reports_each_field() {
    let bad = NewTaskRequest {
        enrollment_id: " ".to_string(),
        actor_id: "3".to_string(),
        start_time: "whenever".to_string(),
        duration: 0,
        description: "d".to_string(),
        name: "n".to_string(),
    };
    let errors = bad.validate_at(NOW);
    assert_eq!(errors.len(), 3);
    assert_eq!(errors[0].field, "start_time");
    assert_eq!(errors[0].message, "unparsable date.");
    assert_eq!(errors[1].field, "duration");
    assert_eq!(errors[1].message, "should be a minimum of 1 hour.");
    assert_eq!(errors[2].field, "enrollment_id");
    assert_eq!(errors[2].message, "Enrollment Id is a must.");

    let past = task_request("1999-01-01 00:00:00");
    let errors = past.validate_at(NOW);
    assert_eq!(errors.len(), 1);
    assert_eq!(errors[0].field, "start_time");
    assert_eq!(errors[0].message, "should be a future date.");

    assert!(task_request("2030-01-01 10:00:00").validate_at(NOW).is_empty());
}

#[test]
fn update_task_validation_requires_an_id() {
    let bad = UpdateTaskRequest {
        id: "".to_string(),
        name: "n".to_string(),
        description: "d".to_string(),
        start_time: "2030-01-01 10:00:00".to_string(),
        duration: 1,
    };
    let errors = bad.validate_at(NOW);
    assert_eq!(errors.len(), 1);
    assert_eq!(errors[0].field, "id");
    assert_eq!(errors[0].message, "Id is a must.");
}
