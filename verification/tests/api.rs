//! The request-layer roots: validation happens before any store access, and
//! the typed outcomes come wrapped for the transport.

use coachcore::api::{DBContext, MutationRoot, QueryRoot};
use coachcore::models::enrollments::{EnrollmentCriteria, EnrollmentFilter, NewEnrollmentRequest};
use coachcore::models::programs::{
    AssociateCoachRequest, ChangeProgramStateRequest, NewProgramRequest, ProgramTargetState,
};
use coachcore::models::session_users::NewSessionUser;
use coachcore::models::sessions::NewSessionRequest;
use coachcore::models::tasks::NewTaskRequest;
use coachcore::store::Store;

const NOW: i64 = 1_600_000_000;

#[test]
fn mutation_roots_drive_the_end_to_end_scenario() {
    let mut context = DBContext { store: Store::new() };
    let c1 = context.store.register_coach("Coach One", "c1@example.com");
    context.store.register_coach("Coach Two", "c2@example.com");
    let member = context.store.register_user("Member", "m@example.com");

    let created = MutationRoot::create_program(
        &mut context,
        &NewProgramRequest {
            name: "Fitness".to_string(),
            description: "A coaching program".to_string(),
            coach_id: c1.id.clone(),
        },
        NOW,
    );
    let root = created.program().expect("created program").clone();

    let associated = MutationRoot::associate_coach(
        &mut context,
        &AssociateCoachRequest {
            program_id: root.id().to_string(),
            peer_coach_email: "c2@example.com".to_string(),
        },
        NOW + 1,
    );
    assert!(associated.program().is_some());

    let listing = QueryRoot::get_program_coaches(&context, root.id());
    assert_eq!(listing.programs().expect("peer listing").len(), 1);

    let enrolled = MutationRoot::create_enrollment(
        &mut context,
        &NewEnrollmentRequest {
            program_id: root.id().to_string(),
            user_id: member.id.clone(),
            coach_id: c1.id.clone(),
        },
        NOW + 2,
    );
    assert!(enrolled.enrollment().is_some());

    let twice = MutationRoot::create_enrollment(
        &mut context,
        &NewEnrollmentRequest {
            program_id: root.id().to_string(),
            user_id: member.id.clone(),
            coach_id: c1.id.clone(),
        },
        NOW + 3,
    );
    let errs = twice.error().expect("gate refusal");
    assert_eq!(errs[0].field, "service");
    assert_eq!(
        errs[0].message,
        "It seems the user have already enrolled in this program or in a similar program offered by a peer coach."
    );

    let members = QueryRoot::get_enrollments(
        &context,
        EnrollmentCriteria { program_id: root.id().to_string(), desire: EnrollmentFilter::NEW },
    );
    assert_eq!(members.len(), 1);
    assert_eq!(members[0].full_name(), "Member");

    let state = MutationRoot::alter_program_state(
        &mut context,
        &ChangeProgramStateRequest {
            id: root.id().to_string(),
            target_state: ProgramTargetState::DEACTIVATE,
        },
    );
    assert_eq!(state.rows().expect("bulk update").as_str(), "Ok");
}

#[test]
fn create_task_validates_before_touching_the_store() {
    let mut context = DBContext { store: Store::new() };
    let bad = MutationRoot::create_task(
        &mut context,
        &NewTaskRequest {
            enrollment_id: "9".to_string(),
            actor_id: "3".to_string(),
            start_time: "whenever".to_string(),
            duration: 2,
            description: "d".to_string(),
            name: "n".to_string(),
        },
        NOW,
    );
    let errs = bad.error().expect("validation refusal");
    assert_eq!(errs.len(), 1);
    assert_eq!(errs[0].field, "start_time");
    assert_eq!(errs[0].message, "unparsable date.");
    assert!(context.store.tasks.is_empty());

    let good = MutationRoot::create_task(
        &mut context,
        &NewTaskRequest {
            enrollment_id: "9".to_string(),
            actor_id: "3".to_string(),
            start_time: "2030-01-01 10:00:00".to_string(),
            duration: 2,
            description: "d".to_string(),
            name: "n".to_string(),
        },
        NOW,
    );
    assert!(good.task().is_some());
    assert_eq!(context.store.tasks.len(), 1);
}

#[test]
fn create_session_validates_before_touching_the_store() {
    let mut context = DBContext { store: Store::new() };
    let bad = MutationRoot::create_session(
        &mut context,
        &NewSessionRequest {
            program_id: "1".to_string(),
            member_id: "2".to_string(),
            name: "Kick-off".to_string(),
            description: "First meeting".to_string(),
            duration: 5,
            start_time: "2030-01-01 10:00:00".to_string(),
        },
        NOW,
    );
    let errs = bad.error().expect("validation refusal");
    assert_eq!(errs.len(), 1);
    assert_eq!(errs[0].field, "duration");
    assert_eq!(errs[0].message, "should be a minimum of 15 minutes");
    assert!(context.store.sessions.is_empty());
}

#[test]
fn session_users_link_participants_to_sessions() {
    let mut store = Store::new();
    let coach = store.register_coach("Coach One", "c1@example.com");
    let member = store.register_user("Member", "m@example.com");
    let program = coachcore::services::programs::create_new_program(
        &mut store,
        &NewProgramRequest {
            name: "Fitness".to_string(),
            description: "A coaching program".to_string(),
            coach_id: coach.id.clone(),
        },
        NOW,
    )
    .expect("program");
    let req = NewEnrollmentRequest {
        program_id: program.id().to_string(),
        user_id: member.id.clone(),
        coach_id: coach.id.clone(),
    };
    coachcore::services::enrollments::create_new_enrollment(&mut store, &req, NOW)
        .expect("enrollment");
    let session = coachcore::services::sessions::create_session(
        &mut store,
        &NewSessionRequest {
            program_id: program.id().to_string(),
            member_id: member.id.clone(),
            name: "Kick-off".to_string(),
            description: "First meeting".to_string(),
            duration: 30,
            start_time: "2030-01-01 10:00:00".to_string(),
        },
        NOW,
    )
    .expect("session");

    let link = NewSessionUser::from(&session, &member, "member", "99".to_string());
    assert_eq!(link.session_id, session.id);
    assert_eq!(link.user_id, member.id);
    assert_eq!(link.user_type, "member");
    assert_eq!(link.fuzzy_id, "99");
}
