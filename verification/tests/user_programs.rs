//! Program browsing: the latest offerings, a member's enrolled programs,
//! and a coach's own programs.

use coachcore::commons::chassis::ServiceError;
use coachcore::models::enrollments::NewEnrollmentRequest;
use coachcore::models::programs::NewProgramRequest;
use coachcore::models::user_programs::{find_program, get_programs, Desire, ProgramCriteria};
use coachcore::store::Store;

const NOW: i64 = 1_600_000_000;

fn criteria(user: &str, program: &str, desire: Desire) -> ProgramCriteria {
    ProgramCriteria {
        user_fuzzy_id: user.to_string(),
        program_fuzzy_id: program.to_string(),
        desire,
    }
}

fn program(store: &mut Store, name: &str, coach_id: &str, created_at: i64) -> String {
    coachcore::services::programs::create_new_program(
        store,
        &NewProgramRequest {
            name: name.to_string(),
            description: "A coaching program".to_string(),
            coach_id: coach_id.to_string(),
        },
        created_at,
    )
    .expect("program")
    .id()
    .to_string()
}

#[test]
fn explore_lists_earliest_active_programs_first() {
    let mut store = Store::new();
    let coach = store.register_coach("Coach One", "c1@example.com");
    let late = program(&mut store, "Late", coach.id.as_str(), NOW + 100);
    let early = program(&mut store, "Early", coach.id.as_str(), NOW + 1);
    let middle = program(&mut store, "Middle", coach.id.as_str(), NOW + 50);

    let rows = get_programs(&store, &criteria("", "", Desire::EXPLORE)).expect("listing");
    assert_eq!(rows.len(), 3);
    assert_eq!(rows[0].program().id(), early.as_str());
    assert_eq!(rows[1].program().id(), middle.as_str());
    assert_eq!(rows[2].program().id(), late.as_str());

    // Deactivated peers drop out of the exploration list; these three roots
    // stay whatever their peers do, so deactivate by hand.
    store.programs[0].active = false;
    let rows = get_programs(&store, &criteria("", "", Desire::EXPLORE)).expect("listing");
    assert_eq!(rows.len(), 2);
    assert_eq!(rows[0].program().id(), early.as_str());
}

#[test]
fn explore_caps_the_listing_at_ten() {
    let mut store = Store::new();
    let coach = store.register_coach("Coach One", "c1@example.com");
    for k in 0..12 {
        program(&mut store, "P", coach.id.as_str(), NOW + k);
    }
    let rows = get_programs(&store, &criteria("", "", Desire::EXPLORE)).expect("listing");
    assert_eq!(rows.len(), 10);
    assert_eq!(rows[0].program().created_at, NOW);
    assert_eq!(rows[9].program().created_at, NOW + 9);
}

#[test]
fn enrolled_lists_the_member_programs() {
    let mut store = Store::new();
    let coach = store.register_coach("Coach One", "c1@example.com");
    let member = store.register_user("Member", "m@example.com");
    let fitness = program(&mut store, "Fitness", coach.id.as_str(), NOW);
    program(&mut store, "Chess", coach.id.as_str(), NOW + 1);
    let req = NewEnrollmentRequest {
        program_id: fitness.clone(),
        user_id: member.id.clone(),
        coach_id: coach.id.clone(),
    };
    coachcore::services::enrollments::create_new_enrollment(&mut store, &req, NOW + 2)
        .expect("enrollment");

    let rows = get_programs(&store, &criteria(member.id.as_str(), "", Desire::ENROLLED))
        .expect("listing");
    assert_eq!(rows.len(), 1);
    assert_eq!(rows[0].program().id(), fitness.as_str());
    assert_eq!(rows[0].coach().id(), coach.id.as_str());
}

#[test]
fn yours_lists_a_coach_programs_by_name() {
    let mut store = Store::new();
    let coach = store.register_coach("Coach One", "c1@example.com");
    let other = store.register_coach("Coach Two", "c2@example.com");
    program(&mut store, "Zumba", coach.id.as_str(), NOW);
    program(&mut store, "Aikido", coach.id.as_str(), NOW + 1);
    program(&mut store, "Boxing", other.id.as_str(), NOW + 2);

    let rows = get_programs(&store, &criteria(coach.id.as_str(), "", Desire::YOURS))
        .expect("listing");
    assert_eq!(rows.len(), 2);
    assert_eq!(rows[0].program().name(), "Aikido");
    assert_eq!(rows[1].program().name(), "Zumba");
}

#[test]
fn find_program_joins_the_coach() {
    let mut store = Store::new();
    let coach = store.register_coach("Coach One", "c1@example.com");
    let fitness = program(&mut store, "Fitness", coach.id.as_str(), NOW);

    let row = find_program(&store, &criteria("", fitness.as_str(), Desire::EXPLORE))
        .expect("lookup");
    assert_eq!(row.program().id(), fitness.as_str());
    assert_eq!(row.coach().full_name(), "Coach One");

    let missing = find_program(&store, &criteria("", "77", Desire::EXPLORE));
    assert!(matches!(missing, Err(ServiceError::InvalidProgram)));
}
