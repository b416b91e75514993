//! The enrollment row: the sole link between a member and a program.

use vstd::prelude::*;

verus! {

use vstd::string::StringExecFns;
use crate::commons::chassis::{errs_match, ValidationError};
use crate::models::programs::Program;
use crate::models::users::User;
use crate::text::{is_blank, is_blank_str};

pub struct Enrollment {
    pub id: String,
    pub program_id: String,
    pub member_id: String,
    pub created_at: i64,
    pub updated_at: i64,
    pub is_new: bool,
}

impl Clone for Enrollment {
    fn clone(&self) -> (r: Self)
        ensures
            r == *self,
    {
        Enrollment {
            id: self.id.clone(),
            program_id: self.program_id.clone(),
            member_id: self.member_id.clone(),
            created_at: self.created_at,
            updated_at: self.updated_at,
            is_new: self.is_new,
        }
    }
}

impl Enrollment {
    pub fn id(&self) -> (r: &str)
        ensures
            r@ == self.id@,
    {
        self.id.as_str()
    }

    pub fn program_id(&self) -> (r: &str)
        ensures
            r@ == self.program_id@,
    {
        self.program_id.as_str()
    }

    pub fn member_id(&self) -> (r: &str)
        ensures
            r@ == self.member_id@,
    {
        self.member_id.as_str()
    }

    pub fn is_new(&self) -> (r: bool)
        ensures
            r == self.is_new,
    {
        self.is_new
    }

    pub fn created_at(&self) -> (r: i64)
        ensures
            r == self.created_at,
    {
        self.created_at
    }
}

pub struct NewEnrollmentRequest {
    pub program_id: String,
    pub user_id: String,
    pub coach_id: String,
}

pub open spec fn new_enrollment_errors(req: NewEnrollmentRequest) -> Seq<(Seq<char>, Seq<char>)> {
    (if is_blank_str(req.program_id@) {
        seq![("program_id"@, "The Program id is invalid."@)]
    } else {
        Seq::empty()
    }) + (if is_blank_str(req.user_id@) {
        seq![("user_id"@, "The User id is invalid."@)]
    } else {
        Seq::empty()
    }) + (if is_blank_str(req.coach_id@) {
        seq![("coach_id"@, "We need the coach id who offers the program."@)]
    } else {
        Seq::empty()
    })
}

impl NewEnrollmentRequest {
    pub fn validate(&self) -> (r: Vec<ValidationError>)
        ensures
            errs_match(r@, new_enrollment_errors(*self)),
    {
        let mut errors: Vec<ValidationError> = Vec::new();
        if is_blank(self.program_id.as_str()) {
            errors.push(ValidationError::new("program_id", "The Program id is invalid."));
        }
        if is_blank(self.user_id.as_str()) {
            errors.push(ValidationError::new("user_id", "The User id is invalid."));
        }
        if is_blank(self.coach_id.as_str()) {
            errors.push(
                ValidationError::new("coach_id", "We need the coach id who offers the program."),
            );
        }
        errors
    }
}

#[derive(Clone, Copy, Debug, PartialEq, Eq, Structural)]
pub enum EnrollmentFilter {
    ALL,
    NEW,
}

pub struct EnrollmentCriteria {
    pub program_id: String,
    pub desire: EnrollmentFilter,
}

pub struct PlanCriteria {
    pub enrollment_id: String,
}

/// The row shape an enrollment is inserted with; the store stamps the rest.
pub struct NewEnrollment {
    pub id: String,
    pub program_id: String,
    pub member_id: String,
}

impl NewEnrollment {
    pub fn from(program: &Program, user: &User, fuzzy_id: String) -> (r: NewEnrollment)
        ensures
            r.id@ == fuzzy_id@,
            r.program_id@ == program.id@,
            r.member_id@ == user.id@,
    {
        NewEnrollment {
            id: fuzzy_id,
            program_id: program.id.clone(),
            member_id: user.id.clone(),
        }
    }
}

pub struct ManagedEnrollmentRequest {
    pub program_id: String,
    pub coach_id: String,
    pub member_mail: String,
    pub subject: String,
    pub message: String,
}

} // verus!
