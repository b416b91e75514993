//! The mail outbox. Enrollment creation queues a notification here,
//! fire-and-forget; a missing recipient never rolls the enrollment back.

use vstd::prelude::*;

verus! {

#[derive(Clone, Copy, Debug, PartialEq, Eq, Structural)]
pub enum MailKind {
    SelfEnrollment,
    ManagedEnrollment,
}

/// One queued notification about a freshly created enrollment.
pub struct MailEvent {
    pub kind: MailKind,
    pub enrollment_id: String,
    pub member_id: String,
    pub coach_id: String,
}

impl Clone for MailEvent {
    fn clone(&self) -> (r: Self)
        ensures
            r == *self,
    {
        MailEvent {
            kind: self.kind,
            enrollment_id: self.enrollment_id.clone(),
            member_id: self.member_id.clone(),
            coach_id: self.coach_id.clone(),
        }
    }
}

} // verus!
