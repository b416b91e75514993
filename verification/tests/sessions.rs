//! The session lifecycle: creation against an enrollment, the state
//! machine, deletion, and the conference variant.

use coachcore::commons::chassis::ServiceError;
use coachcore::models::enrollments::NewEnrollmentRequest;
use coachcore::models::programs::NewProgramRequest;
use coachcore::models::sessions::{
    ChangeSessionStateRequest, NewSessionRequest, Session, SessionStatus, TargetState,
};
use coachcore::services::sessions::{change_session_state, create_session, delete_session, find};
use coachcore::store::Store;

const NOW: i64 = 1_600_000_000;

fn store_with_session() -> (Store, Session) {
    let mut store = Store::new();
    let coach = store.register_coach("Coach One", "c1@example.com");
    let member = store.register_user("Member", "m@example.com");
    let program = coachcore::services::programs::create_new_program(
        &mut store,
        &NewProgramRequest {
            name: "Fitness".to_string(),
            description: "A coaching program".to_string(),
            coach_id: coach.id.clone(),
        },
        NOW,
    )
    .expect("program");
    let req = NewEnrollmentRequest {
        program_id: program.id().to_string(),
        user_id: member.id.clone(),
        coach_id: coach.id.clone(),
    };
    coachcore::services::enrollments::create_new_enrollment(&mut store, &req, NOW)
        .expect("enrollment");
    let session = create_session(
        &mut store,
        &NewSessionRequest {
            program_id: program.id().to_string(),
            member_id: member.id.clone(),
            name: "Kick-off".to_string(),
            description: "First meeting".to_string(),
            duration: 30,
            start_time: "2030-01-01 10:00:00".to_string(),
        },
        NOW,
    )
    .expect("session");
    (store, session)
}

#[test]
fn created_session_is_single_party_and_planned() {
    let (store, session) = store_with_session();
    let start = coachcore::temporal::parse_date_time("2030-01-01 10:00:00").expect("parses");
    assert_eq!(session.scheduleStart(), start);
    assert_eq!(session.scheduleEnd(), start + 30 * 60);
    assert_eq!(session.session_type(), "mono");
    assert!(!session.is_conference());
    assert_eq!(session.people(), "Member");
    assert_eq!(session.name(), "Kick-off");
    assert_eq!(session.description(), "First meeting");
    assert!(!session.isClosed());
    assert_eq!(session.status_at(NOW), SessionStatus::PLANNED);
    assert_eq!(session.status_at(start + 1), SessionStatus::OVERDUE);
    assert!(session.can_delete());
    // The stored row is the returned row.
    let stored = find(&store, session.id()).expect("lookup");
    assert_eq!(stored.id(), session.id());
}

#[test]
fn session_state_machine_walks_ready_start_done() {
    let (mut store, session) = store_with_session();
    let id = session.id.clone();

    let ready = change_session_state(
        &mut store,
        &ChangeSessionStateRequest {
            id: id.clone(),
            target_state: TargetState::READY,
            closing_notes: None,
        },
        NOW + 1,
    )
    .expect("ready");
    assert_eq!(ready.status_at(NOW + 2), SessionStatus::READY);
    assert!(!ready.can_delete());

    let started = change_session_state(
        &mut store,
        &ChangeSessionStateRequest {
            id: id.clone(),
            target_state: TargetState::START,
            closing_notes: None,
        },
        NOW + 3,
    )
    .expect("start");
    assert_eq!(started.status_at(NOW + 4), SessionStatus::PROGRESS);

    // Closing before starting again is refused.
    let restart = change_session_state(
        &mut store,
        &ChangeSessionStateRequest {
            id: id.clone(),
            target_state: TargetState::START,
            closing_notes: None,
        },
        NOW + 5,
    );
    assert!(matches!(restart, Err(ServiceError::IllegalStateTransition)));

    let done = change_session_state(
        &mut store,
        &ChangeSessionStateRequest {
            id: id.clone(),
            target_state: TargetState::DONE,
            closing_notes: Some("Great session".to_string()),
        },
        NOW + 6,
    )
    .expect("done");
    assert_eq!(done.status_at(NOW + 7), SessionStatus::DONE);
    assert_eq!(done.closing_notes().as_deref(), Some("Great session"));
    assert!(done.isClosed());

    // A closed session can no longer be cancelled.
    let cancel = change_session_state(
        &mut store,
        &ChangeSessionStateRequest {
            id: id.clone(),
            target_state: TargetState::CANCEL,
            closing_notes: None,
        },
        NOW + 8,
    );
    assert!(matches!(cancel, Err(ServiceError::IllegalStateTransition)));
}

#[test]
fn cancel_wins_over_every_other_session_state() {
    let (mut store, session) = store_with_session();
    let id = session.id.clone();
    let cancelled = change_session_state(
        &mut store,
        &ChangeSessionStateRequest {
            id: id.clone(),
            target_state: TargetState::CANCEL,
            closing_notes: None,
        },
        NOW + 1,
    )
    .expect("cancel");
    assert_eq!(cancelled.status_at(NOW + 2), SessionStatus::CANCELLED);
    assert!(cancelled.isClosed());
    assert!(!cancelled.can_delete());
}

#[test]
fn delete_is_for_untouched_single_party_sessions_only() {
    let (mut store, session) = store_with_session();
    let id = session.id.clone();

    // A multi-party session never goes through this path.
    store.sessions[0].session_type = "multi".to_string();
    assert!(store.sessions[0].is_conference());
    let conference = delete_session(&mut store, id.as_str());
    assert!(matches!(conference, Err(ServiceError::ConferenceNotDeletable)));
    store.sessions[0].session_type = "mono".to_string();

    // A started session is no longer deletable.
    change_session_state(
        &mut store,
        &ChangeSessionStateRequest {
            id: id.clone(),
            target_state: TargetState::START,
            closing_notes: None,
        },
        NOW + 1,
    )
    .expect("start");
    let started = delete_session(&mut store, id.as_str());
    assert!(matches!(started, Err(ServiceError::IllegalStateTransition)));
    store.sessions[0].actual_start_date = None;

    // Untouched again, the session goes away.
    assert_eq!(delete_session(&mut store, id.as_str()).expect("delete"), 1);
    assert!(store.sessions.is_empty());
    let missing = delete_session(&mut store, id.as_str());
    assert!(matches!(missing, Err(ServiceError::SessionNotFound)));
}

#[test]
fn session_creation_needs_an_enrollment() {
    let mut store = Store::new();
    let coach = store.register_coach("Coach One", "c1@example.com");
    let member = store.register_user("Member", "m@example.com");
    let program = coachcore::services::programs::create_new_program(
        &mut store,
        &NewProgramRequest {
            name: "Fitness".to_string(),
            description: "A coaching program".to_string(),
            coach_id: coach.id.clone(),
        },
        NOW,
    )
    .expect("program");

    let r = create_session(
        &mut store,
        &NewSessionRequest {
            program_id: program.id().to_string(),
            member_id: member.id.clone(),
            name: "Kick-off".to_string(),
            description: "First meeting".to_string(),
            duration: 30,
            start_time: "2030-01-01 10:00:00".to_string(),
        },
        NOW,
    );
    assert!(matches!(r, Err(ServiceError::EnrollmentNotFound)));
}

#[test]
fn session_request_validation_reports_each_field() {
    let bad = NewSessionRequest {
        program_id: "".to_string(),
        member_id: " ".to_string(),
        name: "\t".to_string(),
        description: "".to_string(),
        duration: 10,
        start_time: "soon".to_string(),
    };
    let errors = bad.validate_at(NOW);
    assert_eq!(errors.len(), 6);
    assert_eq!(errors[0].field, "start_time");
    assert_eq!(errors[0].message, "unparsable date.");
    assert_eq!(errors[1].field, "duration");
    assert_eq!(errors[1].message, "should be a minimum of 15 minutes");
    assert_eq!(errors[2].field, "program_id");
    assert_eq!(errors[3].field, "member_id");
    assert_eq!(errors[4].field, "name");
    assert_eq!(errors[5].field, "description");
}
