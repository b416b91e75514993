//! The link between a session and one of its participants.

use vstd::prelude::*;

verus! {

use vstd::string::StringExecFns;
use crate::models::sessions::Session;
use crate::models::users::User;

pub struct SessionUser {
    pub id: i32,
    pub fuzzy_id: String,
    pub session_id: String,
    pub user_id: String,
    pub user_type: String,
}

impl SessionUser {
    pub fn fuzzy_id(&self) -> (r: &str)
        ensures
            r@ == self.fuzzy_id@,
    {
        self.fuzzy_id.as_str()
    }

    pub fn user_type(&self) -> (r: &str)
        ensures
            r@ == self.user_type@,
    {
        self.user_type.as_str()
    }
}

/// The row shape a participant link is inserted with.
pub struct NewSessionUser {
    pub fuzzy_id: String,
    pub session_id: String,
    pub user_id: String,
    pub user_type: String,
}

impl NewSessionUser {
    pub fn from(session: &Session, user: &User, session_user_type: &str, fuzzy_id: String) -> (r:
        NewSessionUser)
        ensures
            r.fuzzy_id@ == fuzzy_id@,
            r.session_id@ == session.id@,
            r.user_id@ == user.id@,
            r.user_type@ == session_user_type@,
    {
        NewSessionUser {
            fuzzy_id,
            session_id: session.id.clone(),
            user_id: user.id.clone(),
            user_type: String::from_str(session_user_type),
        }
    }
}

} // verus!
