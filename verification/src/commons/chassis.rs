//! Result plumbing shared by every entry point: field-validation errors,
//! typed business errors, and the wrappers that the request layer consumes.

use vstd::prelude::*;

verus! {

use vstd::string::StringExecFns;
use crate::models::enrollments::Enrollment;
use crate::models::notes::Note;
use crate::models::objectives::Objective;
use crate::models::programs::{Program, ProgramCoach};
use crate::models::sessions::Session;
use crate::models::tasks::Task;

/// A failure reported by a read-only query.
#[derive(Debug)]
pub struct QueryError {
    pub message: String,
}

/// One malformed or missing field of a request, found before any store access.
#[derive(Debug)]
pub struct ValidationError {
    pub field: String,
    pub message: String,
}

impl ValidationError {
    pub fn new(field: &str, message: &str) -> (r: ValidationError)
        ensures
            r.field@ == field@,
            r.message@ == message@,
    {
        ValidationError { field: String::from_str(field), message: String::from_str(message) }
    }
}

/// The validation errors carry exactly the expected `(field, message)` pairs,
/// in order.
pub open spec fn errs_match(errs: Seq<ValidationError>, expect: Seq<(Seq<char>, Seq<char>)>) -> bool {
    &&& errs.len() == expect.len()
    &&& forall|i: int|
        0 <= i < errs.len() ==> (#[trigger] errs[i]).field@ == expect[i].0 && errs[i].message@
            == expect[i].1
}

/// A domain-rule violation or a lookup failure: expected, recoverable by the
/// caller, and never a partial write.
#[derive(Clone, Copy, Debug, PartialEq, Eq, Structural)]
pub enum ServiceError {
    CoachNotFound,
    InvalidCoach,
    InvalidProgram,
    CoachWasMember,
    CoachAlreadyAssociated,
    NotARootProgram,
    AlreadyInState,
    MemberNotFound,
    ProgramNotFound,
    AlreadyEnrolled,
    InvalidMemberMail,
    ConflictProgramOwner,
    EnrollmentNotFound,
    TaskNotFound,
    SessionNotFound,
    ObjectiveNotFound,
    ConferenceNotDeletable,
    IllegalStateTransition,
    PersistenceFailure,
}

impl ServiceError {
    pub open spec fn spec_message(&self) -> Seq<char> {
        match *self {
            ServiceError::CoachNotFound => "Invalid Coach Id."@,
            ServiceError::InvalidCoach => "Invalid Coach Email Id."@,
            ServiceError::InvalidProgram => "Invalid Program Id. Error:001."@,
            ServiceError::CoachWasMember => "The coach was a member of this program in the past. To avoid conflict in roles, please use a different credential."@,
            ServiceError::CoachAlreadyAssociated => "The coach is already associated"@,
            ServiceError::NotARootProgram => "Unable to change the state of the program"@,
            ServiceError::AlreadyInState => "Program is already in the target state."@,
            ServiceError::MemberNotFound => "Invalid User Id"@,
            ServiceError::ProgramNotFound => "Invalid Program Id. Error:001."@,
            ServiceError::AlreadyEnrolled => "It seems the user have already enrolled in this program or in a similar program offered by a peer coach."@,
            ServiceError::InvalidMemberMail => "Invalid Member Mail Id"@,
            ServiceError::ConflictProgramOwner => "The coach does not have rights to enroll this member."@,
            ServiceError::EnrollmentNotFound => "Error in finding enrollment for the program and member. Error-003."@,
            ServiceError::TaskNotFound => "Invalid Task Id"@,
            ServiceError::SessionNotFound => "Invalid Session Id"@,
            ServiceError::ObjectiveNotFound => "Invalid Objective Id"@,
            ServiceError::ConferenceNotDeletable => "A multi-party session cannot be deleted on its own."@,
            ServiceError::IllegalStateTransition => "The entity is not in a state that permits this transition."@,
            ServiceError::PersistenceFailure => "Persistence failure."@,
        }
    }

    pub fn message(&self) -> (r: &'static str)
        ensures
            r@ == self.spec_message(),
    {
        match *self {
            ServiceError::CoachNotFound => "Invalid Coach Id.",
            ServiceError::InvalidCoach => "Invalid Coach Email Id.",
            ServiceError::InvalidProgram => "Invalid Program Id. Error:001.",
            ServiceError::CoachWasMember => "The coach was a member of this program in the past. To avoid conflict in roles, please use a different credential.",
            ServiceError::CoachAlreadyAssociated => "The coach is already associated",
            ServiceError::NotARootProgram => "Unable to change the state of the program",
            ServiceError::AlreadyInState => "Program is already in the target state.",
            ServiceError::MemberNotFound => "Invalid User Id",
            ServiceError::ProgramNotFound => "Invalid Program Id. Error:001.",
            ServiceError::AlreadyEnrolled => "It seems the user have already enrolled in this program or in a similar program offered by a peer coach.",
            ServiceError::InvalidMemberMail => "Invalid Member Mail Id",
            ServiceError::ConflictProgramOwner => "The coach does not have rights to enroll this member.",
            ServiceError::EnrollmentNotFound => "Error in finding enrollment for the program and member. Error-003.",
            ServiceError::TaskNotFound => "Invalid Task Id",
            ServiceError::SessionNotFound => "Invalid Session Id",
            ServiceError::ObjectiveNotFound => "Invalid Objective Id",
            ServiceError::ConferenceNotDeletable => "A multi-party session cannot be deleted on its own.",
            ServiceError::IllegalStateTransition => "The entity is not in a state that permits this transition.",
            ServiceError::PersistenceFailure => "Persistence failure.",
        }
    }
}

/// What a query hands back: the rows, or one query error.
pub struct QueryResult<T>(pub Result<T, QueryError>);

/// What a mutation hands back: the written entity, or the validation errors.
pub struct MutationResult<T>(pub Result<T, Vec<ValidationError>>);

impl<T> QueryResult<T> {
    pub fn error(&self) -> (r: Option<&QueryError>)
        ensures
            self.0 is Err <==> r is Some,
            self.0 is Err ==> *r->0 == self.0->Err_0,
    {
        match &self.0 {
            Ok(_) => None,
            Err(e) => Some(e),
        }
    }
}

impl QueryResult<Vec<ProgramCoach>> {
    pub fn programs(&self) -> (r: Option<&Vec<ProgramCoach>>)
        ensures
            self.0 is Ok <==> r is Some,
            self.0 is Ok ==> *r->0 == self.0->Ok_0,
    {
        match &self.0 {
            Ok(v) => Some(v),
            Err(_) => None,
        }
    }
}

impl QueryResult<Vec<crate::models::user_programs::ProgramRow>> {
    pub fn programs(&self) -> (r: Option<&Vec<crate::models::user_programs::ProgramRow>>)
        ensures
            self.0 is Ok <==> r is Some,
            self.0 is Ok ==> *r->0 == self.0->Ok_0,
    {
        match &self.0 {
            Ok(v) => Some(v),
            Err(_) => None,
        }
    }
}

impl<T> MutationResult<T> {
    pub fn error(&self) -> (r: Option<&Vec<ValidationError>>)
        ensures
            self.0 is Err <==> r is Some,
            self.0 is Err ==> *r->0 == self.0->Err_0,
    {
        match &self.0 {
            Ok(_) => None,
            Err(e) => Some(e),
        }
    }
}

impl MutationResult<Program> {
    pub fn program(&self) -> (r: Option<&Program>)
        ensures
            self.0 is Ok <==> r is Some,
            self.0 is Ok ==> *r->0 == self.0->Ok_0,
    {
        match &self.0 {
            Ok(v) => Some(v),
            Err(_) => None,
        }
    }
}

impl MutationResult<Enrollment> {
    pub fn enrollment(&self) -> (r: Option<&Enrollment>)
        ensures
            self.0 is Ok <==> r is Some,
            self.0 is Ok ==> *r->0 == self.0->Ok_0,
    {
        match &self.0 {
            Ok(v) => Some(v),
            Err(_) => None,
        }
    }
}

impl MutationResult<Session> {
    pub fn session(&self) -> (r: Option<&Session>)
        ensures
            self.0 is Ok <==> r is Some,
            self.0 is Ok ==> *r->0 == self.0->Ok_0,
    {
        match &self.0 {
            Ok(v) => Some(v),
            Err(_) => None,
        }
    }
}

impl MutationResult<Task> {
    pub fn task(&self) -> (r: Option<&Task>)
        ensures
            self.0 is Ok <==> r is Some,
            self.0 is Ok ==> *r->0 == self.0->Ok_0,
    {
        match &self.0 {
            Ok(v) => Some(v),
            Err(_) => None,
        }
    }
}

impl MutationResult<Objective> {
    pub fn objective(&self) -> (r: Option<&Objective>)
        ensures
            self.0 is Ok <==> r is Some,
            self.0 is Ok ==> *r->0 == self.0->Ok_0,
    {
        match &self.0 {
            Ok(v) => Some(v),
            Err(_) => None,
        }
    }
}

impl MutationResult<Note> {
    pub fn note(&self) -> (r: Option<&Note>)
        ensures
            self.0 is Ok <==> r is Some,
            self.0 is Ok ==> *r->0 == self.0->Ok_0,
    {
        match &self.0 {
            Ok(v) => Some(v),
            Err(_) => None,
        }
    }
}

impl MutationResult<String> {
    pub fn rows(&self) -> (r: Option<&String>)
        ensures
            self.0 is Ok <==> r is Some,
            self.0 is Ok ==> *r->0 == self.0->Ok_0,
    {
        match &self.0 {
            Ok(v) => Some(v),
            Err(_) => None,
        }
    }
}

/// Wraps a business error as the single validation error of a mutation, under
/// the `service` field.
pub fn service_error<T>(message: &str) -> (r: MutationResult<T>)
    ensures
        r.0 is Err,
        r.0->Err_0@.len() == 1,
        r.0->Err_0@[0].field@ == "service"@,
        r.0->Err_0@[0].message@ == message@,
{
    let mut v: Vec<ValidationError> = Vec::new();
    let ve = ValidationError::new("service", message);
    v.push(ve);
    MutationResult(Err(v))
}

/// Wraps a business error as a query error.
pub fn query_error<T>(message: &str) -> (r: QueryResult<T>)
    ensures
        r.0 is Err,
        r.0->Err_0.message@ == message@,
{
    QueryResult(Err(QueryError { message: String::from_str(message) }))
}

} // verus!
