//! Identifier rendering, text helpers, date parsing, and the result plumbing.

use coachcore::commons::chassis::{service_error, MutationResult, ServiceError, ValidationError};
use coachcore::ident::u64_to_dec;
use coachcore::models::notes::{FileRequest, NewNote, NewNoteFile, NewNoteRequest};
use coachcore::models::programs::Program;
use coachcore::temporal::{is_in_past, is_valid_date, offset_date, parse_date_time};
use coachcore::text::{is_blank, str_eq, str_le_exec};

#[test]
fn decimal_ids_render_exactly() {
    assert_eq!(u64_to_dec(0), "0");
    assert_eq!(u64_to_dec(7), "7");
    assert_eq!(u64_to_dec(10), "10");
    assert_eq!(u64_to_dec(1234567890), "1234567890");
}

#[test]
fn blank_detection_covers_whitespace() {
    assert!(is_blank(""));
    assert!(is_blank("   \t\r\n"));
    assert!(!is_blank("  x  "));
}

#[test]
fn string_equality_and_order() {
    assert!(str_eq("multi", "multi"));
    assert!(!str_eq("multi", "mono"));
    assert!(str_le_exec("abc", "abd"));
    assert!(str_le_exec("abc", "abc"));
    assert!(!str_le_exec("b", "ab"));
    assert!(str_le_exec("", "a"));
    assert!(str_le_exec("Amy", "Zed"));
}

#[test]
fn date_parsing_round_trip() {
    // Ten seconds past the epoch, in the service's date shape.
    assert_eq!(parse_date_time("1970-01-01 00:00:10"), Some(10));
    assert_eq!(parse_date_time("1970-01-02 00:00:00"), Some(86400));
    assert!(is_valid_date("2030-01-02 03:04:05"));
    assert!(!is_valid_date("not a date"));
    assert!(!is_valid_date("2030-13-01 00:00:00"));
    assert!(is_in_past(5, 10));
    assert!(!is_in_past(10, 10));
}

#[test]
fn schedule_offsets_saturate_at_the_edge() {
    assert_eq!(offset_date(100, 7200), 7300);
    assert_eq!(offset_date(i64::MAX, 1), i64::MAX);
    assert_eq!(offset_date(-100, -100), -200);
}

#[test]
fn validation_error_carries_field_and_message() {
    let e = ValidationError::new("start_time", "unparsable date.");
    assert_eq!(e.field, "start_time");
    assert_eq!(e.message, "unparsable date.");
}

#[test]
fn service_error_wraps_one_error_under_service_field() {
    let r: MutationResult<Program> = service_error("boom");
    assert!(r.program().is_none());
    let errs = r.error().expect("error expected");
    assert_eq!(errs.len(), 1);
    assert_eq!(errs[0].field, "service");
    assert_eq!(errs[0].message, "boom");
}

#[test]
fn service_error_messages_are_stable() {
    assert_eq!(
        ServiceError::AlreadyEnrolled.message(),
        "It seems the user have already enrolled in this program or in a similar program offered by a peer coach."
    );
    assert_eq!(ServiceError::InvalidProgram.message(), "Invalid Program Id. Error:001.");
    assert_eq!(ServiceError::CoachAlreadyAssociated.message(), "The coach is already associated");
    assert_eq!(
        ServiceError::AlreadyInState.message(),
        "Program is already in the target state."
    );
}

#[test]
fn note_request_validation_reports_each_field() {
    let bad = NewNoteRequest {
        session_id: 0,
        created_by_id: -1,
        description: "   ".to_string(),
        files: None,
    };
    let errors = bad.validate();
    assert_eq!(errors.len(), 3);
    assert_eq!(errors[0].field, "session_id");
    assert_eq!(errors[0].message, "Session id is invalid.");
    assert_eq!(errors[1].field, "created_by_id");
    assert_eq!(errors[1].message, "User id is invalid.");
    assert_eq!(errors[2].field, "desciption");
    assert_eq!(errors[2].message, "description of the program is a must.");

    let good = NewNoteRequest {
        session_id: 4,
        created_by_id: 2,
        description: "weekly recap".to_string(),
        files: None,
    };
    assert!(good.validate().is_empty());
}

#[test]
fn note_rows_copy_their_requests() {
    let request = NewNoteRequest {
        session_id: 4,
        created_by_id: 2,
        description: "weekly recap".to_string(),
        files: None,
    };
    let note = NewNote::from(&request, "17".to_string());
    assert_eq!(note.session_id, 4);
    assert_eq!(note.created_by_id, 2);
    assert_eq!(note.description, "weekly recap");
    assert_eq!(note.fuzzy_id, "17");

    let file = FileRequest {
        path: "/tmp/a.pdf".to_string(),
        name: "a.pdf".to_string(),
        kind: "pdf".to_string(),
        size: 9,
    };
    let row = NewNoteFile::from(&file, 4, "18".to_string());
    assert_eq!(row.session_note_id, 4);
    assert_eq!(row.file_name, "a.pdf");
    assert_eq!(row.file_path, "/tmp/a.pdf");
    assert_eq!(row.file_type.as_deref(), Some("pdf"));
    assert_eq!(row.file_size, Some(9));
    assert_eq!(row.fuzzy_id, "18");
}
