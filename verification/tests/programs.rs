//! The program hierarchy: spawning peers, listing them, and the cascading
//! state change.

use coachcore::commons::chassis::ServiceError;
use coachcore::models::programs::{
    AssociateCoachRequest, ChangeProgramStateRequest, NewProgramRequest, ProgramTargetState,
};
use coachcore::services::programs::{
    associate_coach, change_program_state, create_new_program, find, get_peer_coaches,
};
use coachcore::store::Store;

fn program_request(name: &str, coach_id: &str) -> NewProgramRequest {
    NewProgramRequest {
        name: name.to_string(),
        description: "A coaching program".to_string(),
        coach_id: coach_id.to_string(),
    }
}

#[test]
fn create_root_program_anchors_a_family() {
    let mut store = Store::new();
    let coach = store.register_coach("Coach One", "c1@example.com");
    let root = create_new_program(&mut store, &program_request("Fitness", coach.id.as_str()), 50)
        .expect("creation should succeed");
    assert!(root.is_parent());
    assert!(root.active());
    assert_eq!(root.name(), "Fitness");
    assert_eq!(root.coach_id(), coach.id.as_str());
    assert_eq!(root.coalesce_parent_id(), root.id());
    assert!(root.parent_program_id().is_none());

    let again = find(&store, root.id()).expect("the stored row");
    assert_eq!(again.id(), root.id());
}

#[test]
fn create_program_rejects_an_unknown_coach() {
    let mut store = Store::new();
    let r = create_new_program(&mut store, &program_request("Fitness", "42"), 50);
    assert!(matches!(r, Err(ServiceError::CoachNotFound)));
    assert_eq!(store.programs.len(), 0);
}

#[test]
fn program_request_validation_needs_name_and_coach() {
    let bad = NewProgramRequest {
        name: "  ".to_string(),
        description: "d".to_string(),
        coach_id: "".to_string(),
    };
    let errors = bad.validate();
    assert_eq!(errors.len(), 2);
    assert_eq!(errors[0].field, "name");
    assert_eq!(errors[1].field, "coach_id");
    assert!(program_request("Fitness", "1").validate().is_empty());
}

#[test]
fn associate_coach_spawns_a_peer_under_the_root() {
    let mut store = Store::new();
    let c1 = store.register_coach("Coach One", "c1@example.com");
    let c2 = store.register_coach("Coach Two", "c2@example.com");
    let root = create_new_program(&mut store, &program_request("Fitness", c1.id.as_str()), 50)
        .expect("root");

    let request = AssociateCoachRequest {
        program_id: root.id().to_string(),
        peer_coach_email: "c2@example.com".to_string(),
    };
    let peer = associate_coach(&mut store, &request, 60).expect("association should succeed");
    assert!(!peer.is_parent());
    assert_eq!(peer.parent_program_id().expect("spawned"), &root.id().to_string());
    assert_eq!(peer.coalesce_parent_id(), root.id());
    assert_eq!(peer.coach_id(), c2.id.as_str());
    assert_eq!(peer.name(), "Fitness");
    assert_eq!(peer.active(), root.active());

    let rows = get_peer_coaches(&store, root.id()).expect("listing");
    assert_eq!(rows.len(), 1);
    assert_eq!(rows[0].coach().id(), c2.id.as_str());
    assert_eq!(rows[0].program().id(), peer.id());

    // The same listing through a peer's identity resolves the same family.
    let through_peer = get_peer_coaches(&store, peer.id()).expect("listing");
    assert_eq!(through_peer.len(), 1);

    let again = associate_coach(&mut store, &request, 61);
    assert!(matches!(again, Err(ServiceError::CoachAlreadyAssociated)));
}

#[test]
fn associate_coach_gates_unknown_parties() {
    let mut store = Store::new();
    let c1 = store.register_coach("Coach One", "c1@example.com");
    let root = create_new_program(&mut store, &program_request("Fitness", c1.id.as_str()), 50)
        .expect("root");

    let bad_mail = associate_coach(
        &mut store,
        &AssociateCoachRequest {
            program_id: root.id().to_string(),
            peer_coach_email: "who@example.com".to_string(),
        },
        60,
    );
    assert!(matches!(bad_mail, Err(ServiceError::InvalidCoach)));

    let bad_program = associate_coach(
        &mut store,
        &AssociateCoachRequest {
            program_id: "12345".to_string(),
            peer_coach_email: "c1@example.com".to_string(),
        },
        60,
    );
    assert!(matches!(bad_program, Err(ServiceError::InvalidProgram)));
}

#[test]
fn associate_coach_refuses_a_past_member() {
    let mut store = Store::new();
    let c1 = store.register_coach("Coach One", "c1@example.com");
    let c2 = store.register_coach("Coach Two", "c2@example.com");
    let root = create_new_program(&mut store, &program_request("Fitness", c1.id.as_str()), 50)
        .expect("root");
    // The second coach once joined the family as a plain member.
    coachcore::services::enrollments::create_new_enrollment(
        &mut store,
        &coachcore::models::enrollments::NewEnrollmentRequest {
            program_id: root.id().to_string(),
            user_id: c2.id.clone(),
            coach_id: c1.id.clone(),
        },
        55,
    )
    .expect("the coach may enroll as a member elsewhere");

    let r = associate_coach(
        &mut store,
        &AssociateCoachRequest {
            program_id: root.id().to_string(),
            peer_coach_email: "c2@example.com".to_string(),
        },
        60,
    );
    assert!(matches!(r, Err(ServiceError::CoachWasMember)));
}

#[test]
fn change_program_state_flips_every_peer_from_the_root() {
    let mut store = Store::new();
    let c1 = store.register_coach("Coach One", "c1@example.com");
    let c2 = store.register_coach("Coach Two", "c2@example.com");
    let c3 = store.register_coach("Coach Three", "c3@example.com");
    let root = create_new_program(&mut store, &program_request("Fitness", c1.id.as_str()), 50)
        .expect("root");
    let p2 = associate_coach(
        &mut store,
        &AssociateCoachRequest {
            program_id: root.id().to_string(),
            peer_coach_email: "c2@example.com".to_string(),
        },
        60,
    )
    .expect("first peer");
    let p3 = associate_coach(
        &mut store,
        &AssociateCoachRequest {
            program_id: root.id().to_string(),
            peer_coach_email: "c3@example.com".to_string(),
        },
        61,
    )
    .expect("second peer");

    // A non-root program may never drive the family's state.
    let from_peer = change_program_state(
        &mut store,
        &ChangeProgramStateRequest {
            id: p2.id().to_string(),
            target_state: ProgramTargetState::DEACTIVATE,
        },
    );
    assert!(matches!(from_peer, Err(ServiceError::NotARootProgram)));

    // Deactivating from the root rewrites both peers.
    let count = change_program_state(
        &mut store,
        &ChangeProgramStateRequest {
            id: root.id().to_string(),
            target_state: ProgramTargetState::DEACTIVATE,
        },
    )
    .expect("bulk update");
    assert_eq!(count, 2);
    assert!(!find(&store, p2.id()).unwrap().active());
    assert!(!find(&store, p3.id()).unwrap().active());
    // The bulk update leaves the root's own flag alone.
    assert!(find(&store, root.id()).unwrap().active());

    // The root is already active, so activating again is a refused no-op.
    let redo = change_program_state(
        &mut store,
        &ChangeProgramStateRequest {
            id: root.id().to_string(),
            target_state: ProgramTargetState::ACTIVATE,
        },
    );
    assert!(matches!(redo, Err(ServiceError::AlreadyInState)));
}
