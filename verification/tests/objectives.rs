//! The objective lifecycle: the shared status derivation without the
//! respond and cancel machinery, and the request validation.

use coachcore::commons::chassis::ServiceError;
use coachcore::models::enrollments::PlanCriteria;
use coachcore::models::objectives::{
    NewObjectiveRequest, ObjectiveStatus, UpdateObjectiveRequest,
};
use coachcore::services::objectives::{create_objective, get_objectives, update_objective};
use coachcore::store::Store;

const NOW: i64 = 1_600_000_000;

fn objective_request() -> NewObjectiveRequest {
    NewObjectiveRequest {
        enrollment_id: "9".to_string(),
        start_time: "2030-01-01 10:00:00".to_string(),
        end_time: "2030-01-08 10:00:00".to_string(),
        description: "Run five kilometres".to_string(),
    }
}

#[test]
fn created_objective_spans_the_requested_window() {
    let mut store = Store::new();
    let o = create_objective(&mut store, &objective_request(), NOW).expect("objective");
    let start = coachcore::temporal::parse_date_time("2030-01-01 10:00:00").expect("parses");
    let end = coachcore::temporal::parse_date_time("2030-01-08 10:00:00").expect("parses");
    assert_eq!(o.scheduleStart(), start);
    assert_eq!(o.scheduleEnd(), end);
    assert_eq!(o.duration(), 1);
    assert_eq!(o.enrollment_id(), "9");
    assert_eq!(o.description(), "Run five kilometres");
    assert_eq!(o.status_at(NOW), ObjectiveStatus::PLANNED);
}

#[test]
fn objective_status_prefers_due_over_delay() {
    let mut store = Store::new();
    let mut o = create_objective(&mut store, &objective_request(), NOW).expect("objective");
    let end = o.scheduleEnd();
    // Both the start and the end lie in the past: DUE wins in this chain.
    assert_eq!(o.status_at(end + 1), ObjectiveStatus::DUE);
    o.actual_start_date = Some(end);
    assert_eq!(o.status_at(end + 1), ObjectiveStatus::PROGRESS);
    o.actual_end_date = Some(end);
    assert_eq!(o.status_at(end + 1), ObjectiveStatus::DONE);
}

#[test]
fn objective_edits_rewrite_the_window() {
    let mut store = Store::new();
    let o = create_objective(&mut store, &objective_request(), NOW).expect("objective");
    let edit = UpdateObjectiveRequest {
        id: o.id.clone(),
        start_time: "2031-01-01 00:00:00".to_string(),
        end_time: "2031-02-01 00:00:00".to_string(),
        description: "Run ten kilometres".to_string(),
    };
    let o2 = update_objective(&mut store, &edit, NOW + 1).expect("edit");
    assert_eq!(o2.description(), "Run ten kilometres");
    let start = coachcore::temporal::parse_date_time("2031-01-01 00:00:00").expect("parses");
    assert_eq!(o2.scheduleStart(), start);

    let missing = update_objective(
        &mut store,
        &UpdateObjectiveRequest { id: "77".to_string(), ..edit },
        NOW + 2,
    );
    assert!(matches!(missing, Err(ServiceError::ObjectiveNotFound)));
}

#[test]
fn objective_listing_filters_by_enrollment() {
    let mut store = Store::new();
    let o = create_objective(&mut store, &objective_request(), NOW).expect("first");
    let mut other = objective_request();
    other.enrollment_id = "8".to_string();
    create_objective(&mut store, &other, NOW).expect("second");

    let rows = get_objectives(&store, &PlanCriteria { enrollment_id: "9".to_string() })
        .expect("listing");
    assert_eq!(rows.len(), 1);
    assert_eq!(rows[0].id(), o.id());
}

#[test]
fn objective_validation_reports_both_windows() {
    let bad = NewObjectiveRequest {
        enrollment_id: "".to_string(),
        start_time: "garbage".to_string(),
        end_time: "1999-01-01 00:00:00".to_string(),
        description: "d".to_string(),
    };
    let errors = bad.validate_at(NOW);
    assert_eq!(errors.len(), 3);
    assert_eq!(errors[0].field, "start_time");
    assert_eq!(errors[0].message, "unparsable date.");
    assert_eq!(errors[1].field, "end_time");
    assert_eq!(errors[1].message, "should be a future date.");
    assert_eq!(errors[2].field, "enrollment_id");
    assert_eq!(errors[2].message, "Enrollment Id is a must.");

    let bad_update = UpdateObjectiveRequest {
        id: "  ".to_string(),
        start_time: "2030-01-01 10:00:00".to_string(),
        end_time: "2030-01-08 10:00:00".to_string(),
        description: "d".to_string(),
    };
    let errors = bad_update.validate_at(NOW);
    assert_eq!(errors.len(), 1);
    assert_eq!(errors[0].field, "id");
    assert_eq!(errors[0].message, "Id is a must.");
}
