//! A session: a scheduled meeting tied to an enrollment and a program,
//! in single-party form or as a multi-party conference.

use vstd::prelude::*;

verus! {

use vstd::string::StringExecFns;
use crate::commons::chassis::{errs_match, ValidationError};
use crate::temporal::{
    is_in_past, is_valid_date, now_seconds, offset_date, parse_date_time, parsed_date,
    spec_is_past, spec_offset_date,
};
use crate::text::{clone_opt_string, is_blank, is_blank_str, str_eq};

pub struct Session {
    pub id: String,
    pub name: String,
    pub description: Option<String>,
    pub program_id: String,
    pub enrollment_id: String,
    pub people: Option<String>,
    pub duration: i32,
    pub original_start_date: i64,
    pub original_end_date: i64,
    pub revised_start_date: Option<i64>,
    pub revised_end_date: Option<i64>,
    pub offered_start_date: Option<i64>,
    pub offered_end_date: Option<i64>,
    pub is_ready: bool,
    pub actual_start_date: Option<i64>,
    pub actual_end_date: Option<i64>,
    pub cancelled_at: Option<i64>,
    pub created_at: i64,
    pub updated_at: i64,
    pub closing_notes: Option<String>,
    pub is_request: bool,
    pub conference_id: Option<String>,
    pub session_type: String,
}

impl Clone for Session {
    fn clone(&self) -> (r: Self)
        ensures
            r == *self,
    {
        Session {
            id: self.id.clone(),
            name: self.name.clone(),
            description: clone_opt_string(&self.description),
            program_id: self.program_id.clone(),
            enrollment_id: self.enrollment_id.clone(),
            people: clone_opt_string(&self.people),
            duration: self.duration,
            original_start_date: self.original_start_date,
            original_end_date: self.original_end_date,
            revised_start_date: self.revised_start_date,
            revised_end_date: self.revised_end_date,
            offered_start_date: self.offered_start_date,
            offered_end_date: self.offered_end_date,
            is_ready: self.is_ready,
            actual_start_date: self.actual_start_date,
            actual_end_date: self.actual_end_date,
            cancelled_at: self.cancelled_at,
            created_at: self.created_at,
            updated_at: self.updated_at,
            closing_notes: clone_opt_string(&self.closing_notes),
            is_request: self.is_request,
            conference_id: clone_opt_string(&self.conference_id),
            session_type: self.session_type.clone(),
        }
    }
}

/// The derived display state of a session.
#[derive(Clone, Copy, Debug, PartialEq, Eq, Structural)]
pub enum SessionStatus {
    DONE,
    PROGRESS,
    CANCELLED,
    READY,
    OVERDUE,
    PLANNED,
}

impl Session {
    pub open spec fn spec_schedule_start(&self) -> i64 {
        if self.revised_start_date is Some {
            self.revised_start_date->0
        } else {
            self.original_start_date
        }
    }

    pub open spec fn spec_schedule_end(&self) -> i64 {
        if self.revised_end_date is Some {
            self.revised_end_date->0
        } else {
            self.original_end_date
        }
    }

    /// Status by strict precedence, first match wins:
    /// CANCELLED > DONE > PROGRESS > READY > OVERDUE > PLANNED.
    pub open spec fn spec_status(&self, now: i64) -> SessionStatus {
        if self.cancelled_at is Some {
            SessionStatus::CANCELLED
        } else if self.actual_end_date is Some {
            SessionStatus::DONE
        } else if self.actual_start_date is Some {
            SessionStatus::PROGRESS
        } else if self.is_ready {
            SessionStatus::READY
        } else if spec_is_past(self.spec_schedule_start(), now) {
            SessionStatus::OVERDUE
        } else {
            SessionStatus::PLANNED
        }
    }

    pub open spec fn spec_is_closed(&self) -> bool {
        self.cancelled_at is Some || self.actual_end_date is Some
    }

    /// A session may be deleted only while untouched.
    pub open spec fn spec_can_delete(&self) -> bool {
        self.cancelled_at is None && self.actual_start_date is None && !self.is_ready
    }

    /// Marking ready is legal only while the session is still ahead.
    pub open spec fn spec_can_ready(&self) -> bool {
        self.cancelled_at is None && self.actual_start_date is None && self.actual_end_date
            is None
    }

    pub open spec fn spec_can_start(&self) -> bool {
        self.cancelled_at is None && self.actual_start_date is None && self.actual_end_date
            is None
    }

    /// Closing is legal once the session has started and is still open.
    pub open spec fn spec_can_close(&self) -> bool {
        self.actual_start_date is Some && self.cancelled_at is None && self.actual_end_date
            is None
    }

    /// Cancelling is permitted at any point before the session has ended.
    pub open spec fn spec_can_cancel(&self) -> bool {
        self.cancelled_at is None && self.actual_end_date is None
    }

    pub open spec fn spec_is_conference(&self) -> bool {
        self.session_type@ == "multi"@
    }
}

impl Session {
    pub fn id(&self) -> (r: &str)
        ensures
            r@ == self.id@,
    {
        self.id.as_str()
    }

    pub fn program_id(&self) -> (r: &str)
        ensures
            r@ == self.program_id@,
    {
        self.program_id.as_str()
    }

    pub fn enrollment_id(&self) -> (r: &str)
        ensures
            r@ == self.enrollment_id@,
    {
        self.enrollment_id.as_str()
    }

    pub fn name(&self) -> (r: &str)
        ensures
            r@ == self.name@,
    {
        self.name.as_str()
    }

    pub fn description(&self) -> (r: &str)
        ensures
            self.description is Some ==> r@ == self.description->0@,
            self.description is None ==> r@ == "_"@,
    {
        match &self.description {
            None => "_",
            Some(value) => value.as_str(),
        }
    }

    pub fn people(&self) -> (r: &str)
        ensures
            self.people is Some ==> r@ == self.people->0@,
            self.people is None ==> r@ == "_"@,
    {
        match &self.people {
            None => "_",
            Some(value) => value.as_str(),
        }
    }

    pub fn duration(&self) -> (r: i32)
        ensures
            r == self.duration,
    {
        self.duration
    }

    #[allow(non_snake_case)]
    pub fn scheduleStart(&self) -> (r: i64)
        ensures
            r == self.spec_schedule_start(),
    {
        match self.revised_start_date {
            Some(d) => d,
            None => self.original_start_date,
        }
    }

    #[allow(non_snake_case)]
    pub fn scheduleEnd(&self) -> (r: i64)
        ensures
            r == self.spec_schedule_end(),
    {
        match self.revised_end_date {
            Some(d) => d,
            None => self.original_end_date,
        }
    }

    #[allow(non_snake_case)]
    pub fn actualStart(&self) -> (r: Option<i64>)
        ensures
            r == self.actual_start_date,
    {
        self.actual_start_date
    }

    #[allow(non_snake_case)]
    pub fn actualEnd(&self) -> (r: Option<i64>)
        ensures
            r == self.actual_end_date,
    {
        self.actual_end_date
    }

    #[allow(non_snake_case)]
    pub fn isClosed(&self) -> (r: bool)
        ensures
            r == self.spec_is_closed(),
    {
        if self.cancelled_at.is_some() {
            return true;
        }
        if self.actual_end_date.is_some() {
            return true;
        }
        false
    }

    /// The status as of the given instant.
    pub fn status_at(&self, now: i64) -> (r: SessionStatus)
        ensures
            r == self.spec_status(now),
    {
        if self.cancelled_at.is_some() {
            return SessionStatus::CANCELLED;
        }
        if self.actual_end_date.is_some() {
            return SessionStatus::DONE;
        }
        if self.actual_start_date.is_some() {
            return SessionStatus::PROGRESS;
        }
        if self.is_ready {
            return SessionStatus::READY;
        }
        let rev_start_date = self.scheduleStart();
        if is_in_past(rev_start_date, now) {
            return SessionStatus::OVERDUE;
        }
        SessionStatus::PLANNED
    }

    /// The status as of the wall clock.
    pub fn status(&self) -> (r: SessionStatus)
        ensures
            exists|now: i64| r == self.spec_status(now),
            self.cancelled_at is Some ==> r == SessionStatus::CANCELLED,
    {
        let now = now_seconds();
        let r = self.status_at(now);
        proof {
            assert(r == self.spec_status(now));
        }
        r
    }

    pub fn closing_notes(&self) -> (r: Option<String>)
        ensures
            r == self.closing_notes,
    {
        clone_opt_string(&self.closing_notes)
    }

    pub fn session_type(&self) -> (r: &str)
        ensures
            r@ == self.session_type@,
    {
        self.session_type.as_str()
    }

    pub fn conference_id(&self) -> (r: Option<String>)
        ensures
            r == self.conference_id,
    {
        clone_opt_string(&self.conference_id)
    }

    pub fn can_delete(&self) -> (r: bool)
        ensures
            r == self.spec_can_delete(),
    {
        if self.cancelled_at.is_some() {
            return false;
        }
        if self.actual_start_date.is_some() {
            return false;
        }
        if self.is_ready {
            return false;
        }
        true
    }

    pub fn is_conference(&self) -> (r: bool)
        ensures
            r == self.spec_is_conference(),
    {
        str_eq(self.session_type.as_str(), "multi")
    }
}

pub struct NewSessionRequest {
    pub program_id: String,
    pub member_id: String,
    pub name: String,
    pub description: String,
    pub duration: i32,
    pub start_time: String,
}

pub open spec fn new_session_errors(req: NewSessionRequest, now: i64) -> Seq<
    (Seq<char>, Seq<char>),
> {
    (if parsed_date(req.start_time@) is None {
        seq![("start_time"@, "unparsable date."@)]
    } else {
        Seq::empty()
    }) + (if parsed_date(req.start_time@) matches Some(d) && spec_is_past(d, now) {
        seq![("start_time"@, "should be a future date."@)]
    } else {
        Seq::empty()
    }) + (if req.duration < 15 {
        seq![("duration"@, "should be a minimum of 15 minutes"@)]
    } else {
        Seq::empty()
    }) + (if is_blank_str(req.program_id@) {
        seq![("program_id"@, "Program fuzzy id is a must."@)]
    } else {
        Seq::empty()
    }) + (if is_blank_str(req.member_id@) {
        seq![("member_id"@, "Member fuzzy id is a must."@)]
    } else {
        Seq::empty()
    }) + (if is_blank_str(req.name@) {
        seq![("name"@, "name of the session is a must."@)]
    } else {
        Seq::empty()
    }) + (if is_blank_str(req.description@) {
        seq![("description"@, "description of the session is a must."@)]
    } else {
        Seq::empty()
    })
}

impl NewSessionRequest {
    /// The validation outcome as of the given instant.
    pub fn validate_at(&self, now: i64) -> (r: Vec<ValidationError>)
        ensures
            errs_match(r@, new_session_errors(*self, now)),
    {
        let mut errors: Vec<ValidationError> = Vec::new();
        let given_time = self.start_time.as_str();
        if !is_valid_date(given_time) {
            errors.push(ValidationError::new("start_time", "unparsable date."));
        }
        match parse_date_time(given_time) {
            Some(date) => {
                if is_in_past(date, now) {
                    errors.push(ValidationError::new("start_time", "should be a future date."));
                }
            },
            None => {},
        }
        if self.duration < 15 {
            errors.push(ValidationError::new("duration", "should be a minimum of 15 minutes"));
        }
        if is_blank(self.program_id.as_str()) {
            errors.push(ValidationError::new("program_id", "Program fuzzy id is a must."));
        }
        if is_blank(self.member_id.as_str()) {
            errors.push(ValidationError::new("member_id", "Member fuzzy id is a must."));
        }
        if is_blank(self.name.as_str()) {
            errors.push(ValidationError::new("name", "name of the session is a must."));
        }
        if is_blank(self.description.as_str()) {
            errors.push(ValidationError::new("description", "description of the session is a must."));
        }
        errors
    }

    /// The validation outcome as of the wall clock.
    pub fn validate(&self) -> (r: Vec<ValidationError>)
        ensures
            exists|now: i64| errs_match(r@, new_session_errors(*self, now)),
            r@.len() == 0 ==> parsed_date(self.start_time@) is Some && self.duration >= 15
                && !is_blank_str(self.program_id@) && !is_blank_str(self.member_id@),
    {
        let now = now_seconds();
        let r = self.validate_at(now);
        proof {
            assert(errs_match(r@, new_session_errors(*self, now)));
        }
        r
    }
}

/// The row shape a session is inserted with; the store stamps the rest.
pub struct NewSession {
    pub id: String,
    pub name: String,
    pub description: String,
    pub program_id: String,
    pub enrollment_id: String,
    pub people: String,
    pub duration: i32,
    pub original_start_date: i64,
    pub original_end_date: i64,
    pub conference_id: Option<String>,
    pub session_type: String,
    pub is_ready: bool,
}

impl NewSession {
    /// Builds the insertable row: single-party, not yet ready, the schedule
    /// starting at the requested instant and ending `duration` minutes later.
    pub fn from(request: &NewSessionRequest, enrollment_id: String, people: String, fuzzy_id: String) -> (r:
        NewSession)
        requires
            parsed_date(request.start_time@) is Some,
        ensures
            r.id@ == fuzzy_id@,
            r.name@ == request.name@,
            r.description@ == request.description@,
            r.program_id@ == request.program_id@,
            r.enrollment_id@ == enrollment_id@,
            r.people@ == people@,
            r.duration == request.duration,
            r.original_start_date == parsed_date(request.start_time@)->0,
            r.original_end_date == spec_offset_date(
                parsed_date(request.start_time@)->0,
                (request.duration as i64) * 60,
            ),
            r.conference_id is None,
            r.session_type@ == "mono"@,
            !r.is_ready,
    {
        let start_date = match parse_date_time(request.start_time.as_str()) {
            Some(d) => d,
            None => 0,
        };
        let secs: i64 = (request.duration as i64) * 60;
        let end_date = offset_date(start_date, secs);
        NewSession {
            id: fuzzy_id,
            name: request.name.clone(),
            description: request.description.clone(),
            program_id: request.program_id.clone(),
            enrollment_id,
            people,
            duration: request.duration,
            original_start_date: start_date,
            original_end_date: end_date,
            conference_id: None,
            session_type: String::from_str("mono"),
            is_ready: false,
        }
    }
}

#[derive(Clone, Copy, Debug, PartialEq, Eq, Structural)]
pub enum TargetState {
    READY,
    START,
    DONE,
    CANCEL,
}

pub struct ChangeSessionStateRequest {
    pub id: String,
    pub target_state: TargetState,
    pub closing_notes: Option<String>,
}

} // verus!
