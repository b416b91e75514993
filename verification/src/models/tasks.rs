//! A task: a unit of work assigned to an actor within an enrollment.
//!
//! The display status is derived from a handful of optional timestamps by
//! strict precedence, and every mutation is guarded by a pure predicate over
//! the same fields.

use vstd::prelude::*;

verus! {

use crate::commons::chassis::{errs_match, ValidationError};
use crate::temporal::{
    is_in_past, is_valid_date, now_seconds, offset_date, parse_date_time, parsed_date,
    spec_is_past, spec_offset_date,
};
use crate::text::{clone_opt_string, is_blank, is_blank_str};

pub struct Task {
    pub id: String,
    pub enrollment_id: String,
    pub actor_id: String,
    pub name: String,
    pub duration: i32,
    pub min: i32,
    pub max: i32,
    pub original_start_date: i64,
    pub original_end_date: i64,
    pub revised_start_date: Option<i64>,
    pub revised_end_date: Option<i64>,
    pub offered_start_date: Option<i64>,
    pub offered_end_date: Option<i64>,
    pub actual_start_date: Option<i64>,
    pub actual_end_date: Option<i64>,
    pub locked: bool,
    pub created_at: i64,
    pub updated_at: i64,
    pub description: Option<String>,
    pub closing_notes: Option<String>,
    pub response: Option<String>,
    pub approved_at: Option<i64>,
    pub cancelled_at: Option<i64>,
    pub responded_date: Option<i64>,
}

impl Clone for Task {
    fn clone(&self) -> (r: Self)
        ensures
            r == *self,
    {
        Task {
            id: self.id.clone(),
            enrollment_id: self.enrollment_id.clone(),
            actor_id: self.actor_id.clone(),
            name: self.name.clone(),
            duration: self.duration,
            min: self.min,
            max: self.max,
            original_start_date: self.original_start_date,
            original_end_date: self.original_end_date,
            revised_start_date: self.revised_start_date,
            revised_end_date: self.revised_end_date,
            offered_start_date: self.offered_start_date,
            offered_end_date: self.offered_end_date,
            actual_start_date: self.actual_start_date,
            actual_end_date: self.actual_end_date,
            locked: self.locked,
            created_at: self.created_at,
            updated_at: self.updated_at,
            description: clone_opt_string(&self.description),
            closing_notes: clone_opt_string(&self.closing_notes),
            response: clone_opt_string(&self.response),
            approved_at: self.approved_at,
            cancelled_at: self.cancelled_at,
            responded_date: self.responded_date,
        }
    }
}

/// The derived display state of a task, mutually exclusive by construction.
#[derive(Clone, Copy, Debug, PartialEq, Eq, Structural)]
pub enum TaskStatus {
    PLANNED,
    CANCELLED,
    DUE,
    DELAY,
    PROGRESS,
    RESPONDED,
    DONE,
}

impl Task {
    /// The effective schedule start: the revised date wins over the original.
    pub open spec fn spec_schedule_start(&self) -> i64 {
        if self.revised_start_date is Some {
            self.revised_start_date->0
        } else {
            self.original_start_date
        }
    }

    /// The effective schedule end: the revised date wins over the original.
    pub open spec fn spec_schedule_end(&self) -> i64 {
        if self.revised_end_date is Some {
            self.revised_end_date->0
        } else {
            self.original_end_date
        }
    }

    /// Status by strict precedence, first match wins:
    /// CANCELLED > DONE > RESPONDED > DELAY > PROGRESS > DUE > PLANNED.
    pub open spec fn spec_status(&self, now: i64) -> TaskStatus {
        if self.cancelled_at is Some {
            TaskStatus::CANCELLED
        } else if self.actual_end_date is Some {
            TaskStatus::DONE
        } else if self.responded_date is Some {
            TaskStatus::RESPONDED
        } else if spec_is_past(self.spec_schedule_end(), now) {
            TaskStatus::DELAY
        } else if self.actual_start_date is Some {
            TaskStatus::PROGRESS
        } else if spec_is_past(self.spec_schedule_start(), now) {
            TaskStatus::DUE
        } else {
            TaskStatus::PLANNED
        }
    }

    pub open spec fn spec_can_start(&self) -> bool {
        self.actual_start_date is None && self.responded_date is None && self.cancelled_at is None
            && self.actual_end_date is None
    }

    pub open spec fn spec_can_respond(&self) -> bool {
        self.cancelled_at is None && self.actual_end_date is None && self.responded_date is None
            && self.actual_start_date is Some
    }

    pub open spec fn spec_can_finish(&self) -> bool {
        self.actual_start_date is Some && self.response is Some && self.cancelled_at is None
            && self.responded_date is None && self.actual_end_date is None
    }

    pub open spec fn spec_can_complete(&self) -> bool {
        self.actual_end_date is None && self.cancelled_at is None && self.responded_date is Some
    }

    pub open spec fn spec_can_cancel(&self) -> bool {
        self.actual_end_date is None && self.cancelled_at is None
    }

    pub open spec fn spec_can_reopen(&self) -> bool {
        self.responded_date is Some
    }

    /// Plain field edits (name, description, schedule) are allowed only while
    /// the respond cycle has not begun and the task is still open.
    pub open spec fn spec_can_edit(&self) -> bool {
        self.responded_date is None && self.cancelled_at is None && self.actual_end_date is None
    }
}

impl Task {
    pub fn id(&self) -> (r: &str)
        ensures
            r@ == self.id@,
    {
        self.id.as_str()
    }

    pub fn name(&self) -> (r: &str)
        ensures
            r@ == self.name@,
    {
        self.name.as_str()
    }

    #[allow(non_snake_case)]
    pub fn enrollmentId(&self) -> (r: &str)
        ensures
            r@ == self.enrollment_id@,
    {
        self.enrollment_id.as_str()
    }

    pub fn description(&self) -> (r: &str)
        ensures
            self.description is Some ==> r@ == self.description->0@,
            self.description is None ==> r@ == "_"@,
    {
        match &self.description {
            None => "_",
            Some(value) => value.as_str(),
        }
    }

    #[allow(non_snake_case)]
    pub fn actorId(&self) -> (r: &str)
        ensures
            r@ == self.actor_id@,
    {
        self.actor_id.as_str()
    }

    pub fn duration(&self) -> (r: i32)
        ensures
            r == self.duration,
    {
        self.duration
    }

    pub fn min(&self) -> (r: i32)
        ensures
            r == self.min,
    {
        self.min
    }

    pub fn max(&self) -> (r: i32)
        ensures
            r == self.max,
    {
        self.max
    }

    #[allow(non_snake_case)]
    pub fn scheduleStart(&self) -> (r: i64)
        ensures
            r == self.spec_schedule_start(),
    {
        match self.revised_start_date {
            Some(d) => d,
            None => self.original_start_date,
        }
    }

    #[allow(non_snake_case)]
    pub fn scheduleEnd(&self) -> (r: i64)
        ensures
            r == self.spec_schedule_end(),
    {
        match self.revised_end_date {
            Some(d) => d,
            None => self.original_end_date,
        }
    }

    #[allow(non_snake_case)]
    pub fn createdAt(&self) -> (r: i64)
        ensures
            r == self.created_at,
    {
        self.created_at
    }

    #[allow(non_snake_case)]
    pub fn actualStart(&self) -> (r: Option<i64>)
        ensures
            r == self.actual_start_date,
    {
        self.actual_start_date
    }

    pub fn response(&self) -> (r: &str)
        ensures
            self.response is Some ==> r@ == self.response->0@,
            self.response is None ==> r@ == ""@,
    {
        match &self.response {
            None => "",
            Some(value) => value.as_str(),
        }
    }

    #[allow(non_snake_case)]
    pub fn respondedDate(&self) -> (r: Option<i64>)
        ensures
            r == self.responded_date,
    {
        self.responded_date
    }

    #[allow(non_snake_case)]
    pub fn closingNotes(&self) -> (r: &str)
        ensures
            self.closing_notes is Some ==> r@ == self.closing_notes->0@,
            self.closing_notes is None ==> r@ == ""@,
    {
        match &self.closing_notes {
            None => "",
            Some(value) => value.as_str(),
        }
    }

    #[allow(non_snake_case)]
    pub fn actualEnd(&self) -> (r: Option<i64>)
        ensures
            r == self.actual_end_date,
    {
        self.actual_end_date
    }

    #[allow(non_snake_case)]
    pub fn cancelledDate(&self) -> (r: Option<i64>)
        ensures
            r == self.cancelled_at,
    {
        self.cancelled_at
    }

    /// The status as of the given instant.
    pub fn status_at(&self, now: i64) -> (r: TaskStatus)
        ensures
            r == self.spec_status(now),
    {
        if self.cancelled_at.is_some() {
            return TaskStatus::CANCELLED;
        }
        if self.actual_end_date.is_some() {
            return TaskStatus::DONE;
        }
        if self.responded_date.is_some() {
            return TaskStatus::RESPONDED;
        }
        let rev_end_date = self.scheduleEnd();
        if is_in_past(rev_end_date, now) {
            return TaskStatus::DELAY;
        }
        if self.actual_start_date.is_some() {
            return TaskStatus::PROGRESS;
        }
        let rev_start_date = self.scheduleStart();
        if is_in_past(rev_start_date, now) {
            return TaskStatus::DUE;
        }
        TaskStatus::PLANNED
    }

    /// The status as of the wall clock.
    pub fn status(&self) -> (r: TaskStatus)
        ensures
            exists|now: i64| r == self.spec_status(now),
            self.cancelled_at is Some ==> r == TaskStatus::CANCELLED,
    {
        let now = now_seconds();
        let r = self.status_at(now);
        proof {
            assert(r == self.spec_status(now));
        }
        r
    }

    pub fn can_start(&self) -> (r: bool)
        ensures
            r == self.spec_can_start(),
    {
        self.actual_start_date.is_none() && self.responded_date.is_none()
            && self.cancelled_at.is_none() && self.actual_end_date.is_none()
    }

    pub fn can_respond(&self) -> (r: bool)
        ensures
            r == self.spec_can_respond(),
    {
        self.cancelled_at.is_none() && self.actual_end_date.is_none()
            && self.responded_date.is_none() && self.actual_start_date.is_some()
    }

    pub fn can_finish(&self) -> (r: bool)
        ensures
            r == self.spec_can_finish(),
    {
        self.actual_start_date.is_some() && self.response.is_some() && self.cancelled_at.is_none()
            && self.responded_date.is_none() && self.actual_end_date.is_none()
    }

    pub fn can_complete(&self) -> (r: bool)
        ensures
            r == self.spec_can_complete(),
    {
        self.actual_end_date.is_none() && self.cancelled_at.is_none()
            && self.responded_date.is_some()
    }

    pub fn can_cancel(&self) -> (r: bool)
        ensures
            r == self.spec_can_cancel(),
    {
        self.actual_end_date.is_none() && self.cancelled_at.is_none()
    }

    pub fn can_reopen(&self) -> (r: bool)
        ensures
            r == self.spec_can_reopen(),
    {
        self.responded_date.is_some()
    }

    #[allow(non_snake_case)]
    pub fn canStart(&self) -> (r: bool)
        ensures
            r == self.spec_can_start(),
    {
        self.can_start()
    }

    #[allow(non_snake_case)]
    pub fn canRespond(&self) -> (r: bool)
        ensures
            r == self.spec_can_respond(),
    {
        self.can_respond()
    }

    #[allow(non_snake_case)]
    pub fn canFinish(&self) -> (r: bool)
        ensures
            r == self.spec_can_finish(),
    {
        self.can_finish()
    }

    #[allow(non_snake_case)]
    pub fn canComplete(&self) -> (r: bool)
        ensures
            r == self.spec_can_complete(),
    {
        self.can_complete()
    }

    #[allow(non_snake_case)]
    pub fn canCancel(&self) -> (r: bool)
        ensures
            r == self.spec_can_cancel(),
    {
        self.can_cancel()
    }

    #[allow(non_snake_case)]
    pub fn canReopen(&self) -> (r: bool)
        ensures
            r == self.spec_can_reopen(),
    {
        self.can_reopen()
    }
}

pub struct NewTaskRequest {
    pub enrollment_id: String,
    pub actor_id: String,
    pub start_time: String,
    pub duration: i32,
    pub description: String,
    pub name: String,
}

pub open spec fn new_task_errors(req: NewTaskRequest, now: i64) -> Seq<(Seq<char>, Seq<char>)> {
    (if parsed_date(req.start_time@) is None {
        seq![("start_time"@, "unparsable date."@)]
    } else {
        Seq::empty()
    }) + (if parsed_date(req.start_time@) matches Some(d) && spec_is_past(d, now) {
        seq![("start_time"@, "should be a future date."@)]
    } else {
        Seq::empty()
    }) + (if req.duration <= 0 {
        seq![("duration"@, "should be a minimum of 1 hour."@)]
    } else {
        Seq::empty()
    }) + (if is_blank_str(req.enrollment_id@) {
        seq![("enrollment_id"@, "Enrollment Id is a must."@)]
    } else {
        Seq::empty()
    })
}

impl NewTaskRequest {
    /// The validation outcome as of the given instant.
    pub fn validate_at(&self, now: i64) -> (r: Vec<ValidationError>)
        ensures
            errs_match(r@, new_task_errors(*self, now)),
    {
        let mut errors: Vec<ValidationError> = Vec::new();
        let given_time = self.start_time.as_str();
        if !is_valid_date(given_time) {
            errors.push(ValidationError::new("start_time", "unparsable date."));
        }
        match parse_date_time(given_time) {
            Some(date) => {
                if is_in_past(date, now) {
                    errors.push(ValidationError::new("start_time", "should be a future date."));
                }
            },
            None => {},
        }
        if self.duration <= 0 {
            errors.push(ValidationError::new("duration", "should be a minimum of 1 hour."));
        }
        if is_blank(self.enrollment_id.as_str()) {
            errors.push(ValidationError::new("enrollment_id", "Enrollment Id is a must."));
        }
        errors
    }

    /// The validation outcome as of the wall clock.
    pub fn validate(&self) -> (r: Vec<ValidationError>)
        ensures
            exists|now: i64| errs_match(r@, new_task_errors(*self, now)),
            r@.len() == 0 ==> parsed_date(self.start_time@) is Some && self.duration > 0
                && !is_blank_str(self.enrollment_id@),
    {
        let now = now_seconds();
        let r = self.validate_at(now);
        proof {
            assert(errs_match(r@, new_task_errors(*self, now)));
        }
        r
    }
}

pub struct UpdateTaskRequest {
    pub id: String,
    pub name: String,
    pub description: String,
    pub start_time: String,
    pub duration: i32,
}

pub open spec fn update_task_errors(req: UpdateTaskRequest, now: i64) -> Seq<
    (Seq<char>, Seq<char>),
> {
    (if is_blank_str(req.id@) {
        seq![("id"@, "Id is a must."@)]
    } else {
        Seq::empty()
    }) + (if parsed_date(req.start_time@) is None {
        seq![("start_time"@, "unparsable date."@)]
    } else {
        Seq::empty()
    }) + (if parsed_date(req.start_time@) matches Some(d) && spec_is_past(d, now) {
        seq![("start_time"@, "should be a future date."@)]
    } else {
        Seq::empty()
    }) + (if req.duration <= 0 {
        seq![("duration"@, "should be a minimum of 1 hour."@)]
    } else {
        Seq::empty()
    })
}

impl UpdateTaskRequest {
    /// The validation outcome as of the given instant.
    pub fn validate_at(&self, now: i64) -> (r: Vec<ValidationError>)
        ensures
            errs_match(r@, update_task_errors(*self, now)),
    {
        let mut errors: Vec<ValidationError> = Vec::new();
        let given_time = self.start_time.as_str();
        if is_blank(self.id.as_str()) {
            errors.push(ValidationError::new("id", "Id is a must."));
        }
        if !is_valid_date(given_time) {
            errors.push(ValidationError::new("start_time", "unparsable date."));
        }
        match parse_date_time(given_time) {
            Some(date) => {
                if is_in_past(date, now) {
                    errors.push(ValidationError::new("start_time", "should be a future date."));
                }
            },
            None => {},
        }
        if self.duration <= 0 {
            errors.push(ValidationError::new("duration", "should be a minimum of 1 hour."));
        }
        errors
    }

    /// The validation outcome as of the wall clock.
    pub fn validate(&self) -> (r: Vec<ValidationError>)
        ensures
            exists|now: i64| errs_match(r@, update_task_errors(*self, now)),
            r@.len() == 0 ==> parsed_date(self.start_time@) is Some && self.duration > 0
                && !is_blank_str(self.id@),
    {
        let now = now_seconds();
        let r = self.validate_at(now);
        proof {
            assert(errs_match(r@, update_task_errors(*self, now)));
        }
        r
    }
}

/// The row shape a task is inserted with; the store stamps the rest.
pub struct NewTask {
    pub id: String,
    pub enrollment_id: String,
    pub actor_id: String,
    pub duration: i32,
    pub original_start_date: i64,
    pub original_end_date: i64,
    pub description: String,
    pub name: String,
}

impl NewTask {
    /// Builds the insertable row: the schedule starts at the requested
    /// instant and ends `duration` hours later.
    pub fn from(request: &NewTaskRequest, fuzzy_id: String) -> (r: NewTask)
        requires
            parsed_date(request.start_time@) is Some,
        ensures
            r.id@ == fuzzy_id@,
            r.enrollment_id@ == request.enrollment_id@,
            r.actor_id@ == request.actor_id@,
            r.duration == request.duration,
            r.original_start_date == parsed_date(request.start_time@)->0,
            r.original_end_date == spec_offset_date(
                parsed_date(request.start_time@)->0,
                (request.duration as i64) * 3600,
            ),
            r.description@ == request.description@,
            r.name@ == request.name@,
    {
        let start_date = match parse_date_time(request.start_time.as_str()) {
            Some(d) => d,
            None => 0,
        };
        let secs: i64 = (request.duration as i64) * 3600;
        let end_date = offset_date(start_date, secs);
        NewTask {
            id: fuzzy_id,
            enrollment_id: request.enrollment_id.clone(),
            actor_id: request.actor_id.clone(),
            duration: request.duration,
            original_start_date: start_date,
            original_end_date: end_date,
            description: request.description.clone(),
            name: request.name.clone(),
        }
    }
}

pub struct UpdateResponseRequest {
    pub id: String,
    pub response: String,
}

pub struct UpdateClosingNoteRequest {
    pub id: String,
    pub notes: String,
}

#[derive(Clone, Copy, Debug, PartialEq, Eq, Structural)]
pub enum CoachTargetState {
    DONE,
    CANCEL,
    REOPEN,
}

pub struct ChangeCoachTaskStateRequest {
    pub id: String,
    pub target_state: CoachTargetState,
}

#[derive(Clone, Copy, Debug, PartialEq, Eq, Structural)]
pub enum MemberTargetState {
    START,
    FINISH,
}

pub struct ChangeMemberTaskStateRequest {
    pub id: String,
    pub target_state: MemberTargetState,
}

} // verus!
