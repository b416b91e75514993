//! The enrollment admission controller: the family-wide gate, the coach's
//! self-enrollment, the `is_new` flag, the ordered member listing, and the
//! mail outbox.

use coachcore::commons::chassis::ServiceError;
use coachcore::models::enrollments::{
    EnrollmentCriteria, EnrollmentFilter, ManagedEnrollmentRequest, NewEnrollmentRequest,
};
use coachcore::models::mails::MailKind;
use coachcore::models::programs::{AssociateCoachRequest, NewProgramRequest};
use coachcore::services::enrollments::{
    create_managed_enrollment, create_new_enrollment, find, find_or_create_coach_enrollment,
    get_active_enrollments, mark_as_old,
};
use coachcore::services::programs::{associate_coach, create_new_program};
use coachcore::store::Store;

struct Family {
    store: Store,
    coach_id: String,
    root_id: String,
    peer_id: String,
}

fn family_with_peer() -> Family {
    let mut store = Store::new();
    let c1 = store.register_coach("Coach One", "c1@example.com");
    store.register_coach("Coach Two", "c2@example.com");
    let root = create_new_program(
        &mut store,
        &NewProgramRequest {
            name: "Fitness".to_string(),
            description: "A coaching program".to_string(),
            coach_id: c1.id.clone(),
        },
        50,
    )
    .expect("root");
    let peer = associate_coach(
        &mut store,
        &AssociateCoachRequest {
            program_id: root.id().to_string(),
            peer_coach_email: "c2@example.com".to_string(),
        },
        51,
    )
    .expect("peer");
    Family {
        store,
        coach_id: c1.id.clone(),
        root_id: root.id().to_string(),
        peer_id: peer.id().to_string(),
    }
}

fn enrollment_request(family: &Family, program_id: &str, user_id: &str) -> NewEnrollmentRequest {
    NewEnrollmentRequest {
        program_id: program_id.to_string(),
        user_id: user_id.to_string(),
        coach_id: family.coach_id.clone(),
    }
}

#[test]
fn a_member_holds_one_enrollment_per_family() {
    let mut f = family_with_peer();
    let member = f.store.register_user("Member", "m@example.com");

    let e = {
        let req = enrollment_request(&f, f.root_id.as_str(), member.id.as_str());
        create_new_enrollment(&mut f.store, &req, 60)
    }
    .expect("first enrollment");
    assert_eq!(e.program_id(), f.root_id.as_str());
    assert_eq!(e.member_id(), member.id.as_str());
    assert!(e.is_new());
    assert_eq!(e.created_at(), 60);

    // The same program refuses a second enrollment...
    let same = {
        let req = enrollment_request(&f, f.root_id.as_str(), member.id.as_str());
        create_new_enrollment(&mut f.store, &req, 61)
    };
    assert!(matches!(same, Err(ServiceError::AlreadyEnrolled)));

    // ...and so does a peer program of the same family.
    let peer_id = f.peer_id.clone();
    let peer = {
        let req = enrollment_request(&f, peer_id.as_str(), member.id.as_str());
        create_new_enrollment(&mut f.store, &req, 62)
    };
    assert!(matches!(peer, Err(ServiceError::AlreadyEnrolled)));
}

#[test]
fn enrollment_rejects_unknown_member_or_program() {
    let mut f = family_with_peer();
    let root_id = f.root_id.clone();
    let req = enrollment_request(&f, root_id.as_str(), "77");
    let r = create_new_enrollment(&mut f.store, &req, 60);
    assert!(matches!(r, Err(ServiceError::MemberNotFound)));

    let member = f.store.register_user("Member", "m@example.com");
    let r = {
        let req = enrollment_request(&f, "77", member.id.as_str());
        create_new_enrollment(&mut f.store, &req, 60)
    };
    assert!(matches!(r, Err(ServiceError::ProgramNotFound)));
}

#[test]
fn enrollment_queues_a_self_enrollment_mail() {
    let mut f = family_with_peer();
    let member = f.store.register_user("Member", "m@example.com");
    let root_id = f.root_id.clone();
    let e = {
        let req = enrollment_request(&f, root_id.as_str(), member.id.as_str());
        create_new_enrollment(&mut f.store, &req, 60)
    }
    .expect("enrollment");
    assert_eq!(f.store.outbox.len(), 1);
    let mail = &f.store.outbox[0];
    assert_eq!(mail.kind, MailKind::SelfEnrollment);
    assert_eq!(mail.enrollment_id, e.id);
    assert_eq!(mail.member_id, member.id);
    assert_eq!(mail.coach_id, f.coach_id);
}

#[test]
fn coach_self_enrollment_is_idempotent() {
    let mut f = family_with_peer();
    let root_id = f.root_id.clone();
    let first =
        find_or_create_coach_enrollment(&mut f.store, root_id.as_str(), 70).expect("created");
    assert_eq!(first.program_id(), root_id.as_str());
    assert_eq!(first.member_id(), f.coach_id.as_str());
    let rows = f.store.enrollments.len();

    let second =
        find_or_create_coach_enrollment(&mut f.store, root_id.as_str(), 71).expect("found");
    assert_eq!(second.id(), first.id());
    assert_eq!(f.store.enrollments.len(), rows);
}

#[test]
fn mark_as_old_clears_the_flag_idempotently() {
    let mut f = family_with_peer();
    let member = f.store.register_user("Member", "m@example.com");
    let root_id = f.root_id.clone();
    let e = {
        let req = enrollment_request(&f, root_id.as_str(), member.id.as_str());
        create_new_enrollment(&mut f.store, &req, 60)
    }
    .expect("enrollment");

    assert_eq!(mark_as_old(&mut f.store, e.id()).expect("update"), 1);
    assert!(!f.store.enrollments[0].is_new);
    // Clearing a cleared flag is not an error.
    assert_eq!(mark_as_old(&mut f.store, e.id()).expect("update"), 1);
    // A missing enrollment rewrites zero rows.
    assert_eq!(mark_as_old(&mut f.store, "77").expect("update"), 0);
}

#[test]
fn active_enrollments_come_ordered_and_filtered() {
    let mut f = family_with_peer();
    let zed = f.store.register_user("Zed", "zed@example.com");
    let amy = f.store.register_user("Amy", "amy@example.com");
    let root_id = f.root_id.clone();
    let e_zed = {
        let req = enrollment_request(&f, root_id.as_str(), zed.id.as_str());
        create_new_enrollment(&mut f.store, &req, 60)
    }
    .expect("zed");
    {
        let req = enrollment_request(&f, root_id.as_str(), amy.id.as_str());
        create_new_enrollment(&mut f.store, &req, 61)
    }
    .expect("amy");

    let all = get_active_enrollments(
        &f.store,
        EnrollmentCriteria { program_id: root_id.clone(), desire: EnrollmentFilter::ALL },
    )
    .expect("listing");
    assert_eq!(all.len(), 2);
    assert_eq!(all[0].full_name(), "Amy");
    assert_eq!(all[1].full_name(), "Zed");

    mark_as_old(&mut f.store, e_zed.id()).expect("mark");
    let fresh = get_active_enrollments(
        &f.store,
        EnrollmentCriteria { program_id: root_id.clone(), desire: EnrollmentFilter::NEW },
    )
    .expect("listing");
    assert_eq!(fresh.len(), 1);
    assert_eq!(fresh[0].full_name(), "Amy");
}

#[test]
fn new_member_listing_empties_after_mark_as_old() {
    let mut f = family_with_peer();
    let member = f.store.register_user("Member", "m@example.com");
    let root_id = f.root_id.clone();
    let e = {
        let req = enrollment_request(&f, root_id.as_str(), member.id.as_str());
        create_new_enrollment(&mut f.store, &req, 60)
    }
    .expect("enrollment");

    let before = get_active_enrollments(
        &f.store,
        EnrollmentCriteria { program_id: root_id.clone(), desire: EnrollmentFilter::NEW },
    )
    .expect("listing");
    assert_eq!(before.len(), 1);
    assert_eq!(before[0].id.as_str(), member.id.as_str());

    mark_as_old(&mut f.store, e.id()).expect("mark");
    let after = get_active_enrollments(
        &f.store,
        EnrollmentCriteria { program_id: root_id.clone(), desire: EnrollmentFilter::NEW },
    )
    .expect("listing");
    assert!(after.is_empty());
}

#[test]
fn managed_enrollment_checks_ownership_and_queues_mail() {
    let mut f = family_with_peer();
    f.store.register_user("Member", "m@example.com");

    let good = ManagedEnrollmentRequest {
        program_id: f.root_id.clone(),
        coach_id: f.coach_id.clone(),
        member_mail: "m@example.com".to_string(),
        subject: "Welcome".to_string(),
        message: "See you".to_string(),
    };
    let e = create_managed_enrollment(&mut f.store, &good, 80).expect("managed enrollment");
    assert_eq!(e.program_id(), f.root_id.as_str());
    let mail = f.store.outbox.last().expect("queued mail");
    assert_eq!(mail.kind, MailKind::ManagedEnrollment);
    assert_eq!(mail.enrollment_id, e.id);

    let wrong_owner = ManagedEnrollmentRequest {
        program_id: f.peer_id.clone(),
        coach_id: f.coach_id.clone(),
        member_mail: "m@example.com".to_string(),
        subject: "s".to_string(),
        message: "m".to_string(),
    };
    let r = create_managed_enrollment(&mut f.store, &wrong_owner, 81);
    assert!(matches!(r, Err(ServiceError::ConflictProgramOwner)));

    let unknown_mail = ManagedEnrollmentRequest {
        program_id: f.root_id.clone(),
        coach_id: f.coach_id.clone(),
        member_mail: "nobody@example.com".to_string(),
        subject: "s".to_string(),
        message: "m".to_string(),
    };
    let r = create_managed_enrollment(&mut f.store, &unknown_mail, 82);
    assert!(matches!(r, Err(ServiceError::InvalidMemberMail)));
}

#[test]
fn find_resolves_the_stored_pair() {
    let mut f = family_with_peer();
    let member = f.store.register_user("Member", "m@example.com");
    let root_id = f.root_id.clone();
    let e = {
        let req = enrollment_request(&f, root_id.as_str(), member.id.as_str());
        create_new_enrollment(&mut f.store, &req, 60)
    }
    .expect("enrollment");

    let program = coachcore::services::programs::find(&f.store, root_id.as_str()).expect("program");
    let got = find(&f.store, &program, &member).expect("pair lookup");
    assert_eq!(got.id(), e.id());

    let other = f.store.register_user("Other", "o@example.com");
    let missing = find(&f.store, &program, &other);
    assert!(matches!(missing, Err(ServiceError::EnrollmentNotFound)));
}

#[test]
fn enrollment_request_validation_needs_all_ids() {
    let bad = NewEnrollmentRequest {
        program_id: " ".to_string(),
        user_id: "".to_string(),
        coach_id: "\t".to_string(),
    };
    let errors = bad.validate();
    assert_eq!(errors.len(), 3);
    assert_eq!(errors[0].field, "program_id");
    assert_eq!(errors[0].message, "The Program id is invalid.");
    assert_eq!(errors[1].field, "user_id");
    assert_eq!(errors[1].message, "The User id is invalid.");
    assert_eq!(errors[2].field, "coach_id");
    assert_eq!(errors[2].message, "We need the coach id who offers the program.");
}
