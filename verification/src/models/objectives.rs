//! An objective: a goal tied to an enrollment. It reuses the shared
//! status-derivation pattern of tasks and sessions, without the respond or
//! cancel machinery.

use vstd::prelude::*;

verus! {

use crate::commons::chassis::{errs_match, ValidationError};
use crate::temporal::{
    is_in_past, is_valid_date, now_seconds, parse_date_time, parsed_date, spec_is_past,
};
use crate::text::{clone_opt_string, is_blank, is_blank_str};

pub struct Objective {
    pub id: String,
    pub enrollment_id: String,
    pub duration: i32,
    pub original_start_date: i64,
    pub original_end_date: i64,
    pub revised_start_date: Option<i64>,
    pub revised_end_date: Option<i64>,
    pub actual_start_date: Option<i64>,
    pub actual_end_date: Option<i64>,
    pub created_at: i64,
    pub updated_at: i64,
    pub description: Option<String>,
    pub closing_notes: Option<String>,
}

impl Clone for Objective {
    fn clone(&self) -> (r: Self)
        ensures
            r == *self,
    {
        Objective {
            id: self.id.clone(),
            enrollment_id: self.enrollment_id.clone(),
            duration: self.duration,
            original_start_date: self.original_start_date,
            original_end_date: self.original_end_date,
            revised_start_date: self.revised_start_date,
            revised_end_date: self.revised_end_date,
            actual_start_date: self.actual_start_date,
            actual_end_date: self.actual_end_date,
            created_at: self.created_at,
            updated_at: self.updated_at,
            description: clone_opt_string(&self.description),
            closing_notes: clone_opt_string(&self.closing_notes),
        }
    }
}

/// The derived display state of an objective.
#[derive(Clone, Copy, Debug, PartialEq, Eq, Structural)]
pub enum ObjectiveStatus {
    DONE,
    PLANNED,
    PROGRESS,
    DUE,
    DELAY,
}

impl Objective {
    pub open spec fn spec_schedule_start(&self) -> i64 {
        if self.revised_start_date is Some {
            self.revised_start_date->0
        } else {
            self.original_start_date
        }
    }

    pub open spec fn spec_schedule_end(&self) -> i64 {
        if self.revised_end_date is Some {
            self.revised_end_date->0
        } else {
            self.original_end_date
        }
    }

    /// Status by strict precedence, first match wins:
    /// DONE > PROGRESS > DUE > DELAY > PLANNED.
    pub open spec fn spec_status(&self, now: i64) -> ObjectiveStatus {
        if self.actual_end_date is Some {
            ObjectiveStatus::DONE
        } else if self.actual_start_date is Some {
            ObjectiveStatus::PROGRESS
        } else if spec_is_past(self.spec_schedule_start(), now) {
            ObjectiveStatus::DUE
        } else if spec_is_past(self.spec_schedule_end(), now) {
            ObjectiveStatus::DELAY
        } else {
            ObjectiveStatus::PLANNED
        }
    }
}

impl Objective {
    pub fn id(&self) -> (r: &str)
        ensures
            r@ == self.id@,
    {
        self.id.as_str()
    }

    pub fn enrollment_id(&self) -> (r: &str)
        ensures
            r@ == self.enrollment_id@,
    {
        self.enrollment_id.as_str()
    }

    pub fn duration(&self) -> (r: i32)
        ensures
            r == self.duration,
    {
        self.duration
    }

    #[allow(non_snake_case)]
    pub fn scheduleStart(&self) -> (r: i64)
        ensures
            r == self.spec_schedule_start(),
    {
        match self.revised_start_date {
            Some(d) => d,
            None => self.original_start_date,
        }
    }

    #[allow(non_snake_case)]
    pub fn scheduleEnd(&self) -> (r: i64)
        ensures
            r == self.spec_schedule_end(),
    {
        match self.revised_end_date {
            Some(d) => d,
            None => self.original_end_date,
        }
    }

    #[allow(non_snake_case)]
    pub fn createdAt(&self) -> (r: i64)
        ensures
            r == self.created_at,
    {
        self.created_at
    }

    /// The status as of the given instant.
    pub fn status_at(&self, now: i64) -> (r: ObjectiveStatus)
        ensures
            r == self.spec_status(now),
    {
        if self.actual_end_date.is_some() {
            return ObjectiveStatus::DONE;
        }
        if self.actual_start_date.is_some() {
            return ObjectiveStatus::PROGRESS;
        }
        let rev_start_date = self.scheduleStart();
        if is_in_past(rev_start_date, now) {
            return ObjectiveStatus::DUE;
        }
        let rev_end_date = self.scheduleEnd();
        if is_in_past(rev_end_date, now) {
            return ObjectiveStatus::DELAY;
        }
        ObjectiveStatus::PLANNED
    }

    /// The status as of the wall clock.
    pub fn status(&self) -> (r: ObjectiveStatus)
        ensures
            exists|now: i64| r == self.spec_status(now),
            self.actual_end_date is Some ==> r == ObjectiveStatus::DONE,
    {
        let now = now_seconds();
        let r = self.status_at(now);
        proof {
            assert(r == self.spec_status(now));
        }
        r
    }

    pub fn description(&self) -> (r: &str)
        ensures
            self.description is Some ==> r@ == self.description->0@,
            self.description is None ==> r@ == "_"@,
    {
        match &self.description {
            None => "_",
            Some(value) => value.as_str(),
        }
    }
}

pub struct UpdateObjectiveRequest {
    pub id: String,
    pub start_time: String,
    pub end_time: String,
    pub description: String,
}

pub open spec fn objective_window_errors(start_time: Seq<char>, end_time: Seq<char>, now: i64) -> Seq<
    (Seq<char>, Seq<char>),
> {
    (if parsed_date(start_time) is None {
        seq![("start_time"@, "unparsable date."@)]
    } else {
        Seq::empty()
    }) + (if parsed_date(start_time) matches Some(d) && spec_is_past(d, now) {
        seq![("start_time"@, "should be a future date."@)]
    } else {
        Seq::empty()
    }) + (if parsed_date(end_time) is None {
        seq![("end_time"@, "unparsable date."@)]
    } else {
        Seq::empty()
    }) + (if parsed_date(end_time) matches Some(d) && spec_is_past(d, now) {
        seq![("end_time"@, "should be a future date."@)]
    } else {
        Seq::empty()
    })
}

pub open spec fn update_objective_errors(req: UpdateObjectiveRequest, now: i64) -> Seq<
    (Seq<char>, Seq<char>),
> {
    objective_window_errors(req.start_time@, req.end_time@, now) + (if is_blank_str(req.id@) {
        seq![("id"@, "Id is a must."@)]
    } else {
        Seq::empty()
    })
}

pub open spec fn new_objective_errors(req: NewObjectiveRequest, now: i64) -> Seq<
    (Seq<char>, Seq<char>),
> {
    objective_window_errors(req.start_time@, req.end_time@, now) + (if is_blank_str(
        req.enrollment_id@,
    ) {
        seq![("enrollment_id"@, "Enrollment Id is a must."@)]
    } else {
        Seq::empty()
    })
}

/// Pushes the schedule-window errors shared by the objective requests.
fn push_window_errors(errors: &mut Vec<ValidationError>, start_time: &str, end_time: &str, now: i64)
    ensures
        final(errors)@.len() == old(errors)@.len() + objective_window_errors(
            start_time@,
            end_time@,
            now,
        ).len(),
        errs_match(
            final(errors)@.skip(old(errors)@.len() as int),
            objective_window_errors(start_time@, end_time@, now),
        ),
        final(errors)@.take(old(errors)@.len() as int) == old(errors)@,
{
    if !is_valid_date(start_time) {
        errors.push(ValidationError::new("start_time", "unparsable date."));
    }
    match parse_date_time(start_time) {
        Some(date) => {
            if is_in_past(date, now) {
                errors.push(ValidationError::new("start_time", "should be a future date."));
            }
        },
        None => {},
    }
    if !is_valid_date(end_time) {
        errors.push(ValidationError::new("end_time", "unparsable date."));
    }
    match parse_date_time(end_time) {
        Some(date) => {
            if is_in_past(date, now) {
                errors.push(ValidationError::new("end_time", "should be a future date."));
            }
        },
        None => {},
    }
    proof {
        assert(final(errors)@.take(old(errors)@.len() as int) =~= old(errors)@);
    }
}

impl UpdateObjectiveRequest {
    /// The validation outcome as of the given instant.
    pub fn validate_at(&self, now: i64) -> (r: Vec<ValidationError>)
        ensures
            errs_match(r@, update_objective_errors(*self, now)),
    {
        let mut errors: Vec<ValidationError> = Vec::new();
        push_window_errors(&mut errors, self.start_time.as_str(), self.end_time.as_str(), now);
        proof {
            assert(errors@.skip(0) =~= errors@);
        }
        if is_blank(self.id.as_str()) {
            errors.push(ValidationError::new("id", "Id is a must."));
        }
        errors
    }

    /// The validation outcome as of the wall clock.
    pub fn validate(&self) -> (r: Vec<ValidationError>)
        ensures
            exists|now: i64| errs_match(r@, update_objective_errors(*self, now)),
            r@.len() == 0 ==> parsed_date(self.start_time@) is Some && parsed_date(self.end_time@)
                is Some && !is_blank_str(self.id@),
    {
        let now = now_seconds();
        let r = self.validate_at(now);
        proof {
            assert(errs_match(r@, update_objective_errors(*self, now)));
        }
        r
    }
}

pub struct NewObjectiveRequest {
    pub enrollment_id: String,
    pub start_time: String,
    pub end_time: String,
    pub description: String,
}

impl NewObjectiveRequest {
    /// The validation outcome as of the given instant.
    pub fn validate_at(&self, now: i64) -> (r: Vec<ValidationError>)
        ensures
            errs_match(r@, new_objective_errors(*self, now)),
    {
        let mut errors: Vec<ValidationError> = Vec::new();
        push_window_errors(&mut errors, self.start_time.as_str(), self.end_time.as_str(), now);
        proof {
            assert(errors@.skip(0) =~= errors@);
        }
        if is_blank(self.enrollment_id.as_str()) {
            errors.push(ValidationError::new("enrollment_id", "Enrollment Id is a must."));
        }
        errors
    }

    /// The validation outcome as of the wall clock.
    pub fn validate(&self) -> (r: Vec<ValidationError>)
        ensures
            exists|now: i64| errs_match(r@, new_objective_errors(*self, now)),
            r@.len() == 0 ==> parsed_date(self.start_time@) is Some && parsed_date(self.end_time@)
                is Some && !is_blank_str(self.enrollment_id@),
    {
        let now = now_seconds();
        let r = self.validate_at(now);
        proof {
            assert(errs_match(r@, new_objective_errors(*self, now)));
        }
        r
    }
}

/// The row shape an objective is inserted with; the store stamps the rest.
pub struct NewObjective {
    pub id: String,
    pub enrollment_id: String,
    pub duration: i32,
    pub original_start_date: i64,
    pub original_end_date: i64,
    pub description: String,
}

impl NewObjective {
    /// Builds the insertable row from the requested window.
    pub fn from(request: &NewObjectiveRequest, fuzzy_id: String) -> (r: NewObjective)
        requires
            parsed_date(request.start_time@) is Some,
            parsed_date(request.end_time@) is Some,
        ensures
            r.id@ == fuzzy_id@,
            r.enrollment_id@ == request.enrollment_id@,
            r.duration == 1,
            r.original_start_date == parsed_date(request.start_time@)->0,
            r.original_end_date == parsed_date(request.end_time@)->0,
            r.description@ == request.description@,
    {
        let start_date = match parse_date_time(request.start_time.as_str()) {
            Some(d) => d,
            None => 0,
        };
        let end_date = match parse_date_time(request.end_time.as_str()) {
            Some(d) => d,
            None => 0,
        };
        NewObjective {
            id: fuzzy_id,
            enrollment_id: request.enrollment_id.clone(),
            duration: 1,
            original_start_date: start_date,
            original_end_date: end_date,
            description: request.description.clone(),
        }
    }
}

/// The fields an objective update rewrites.
pub struct UpdateObjective {
    pub description: String,
    pub original_start_date: i64,
    pub original_end_date: i64,
}

} // verus!
