//! A registered person: a member, or a coach acting through their user row.

use vstd::prelude::*;

verus! {

pub struct User {
    pub id: String,
    pub email: String,
    pub full_name: String,
}

impl Clone for User {
    fn clone(&self) -> (r: Self)
        ensures
            r == *self,
    {
        User { id: self.id.clone(), email: self.email.clone(), full_name: self.full_name.clone() }
    }
}

impl User {
    pub fn id(&self) -> (r: &str)
        ensures
            r@ == self.id@,
    {
        self.id.as_str()
    }

    pub fn email(&self) -> (r: &str)
        ensures
            r@ == self.email@,
    {
        self.email.as_str()
    }

    pub fn full_name(&self) -> (r: &str)
        ensures
            r@ == self.full_name@,
    {
        self.full_name.as_str()
    }
}

} // verus!
