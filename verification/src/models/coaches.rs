//! A user acting as program owner. The coach row carries the same identifier
//! as the user row it mirrors, so joins need no self-reference.

use vstd::prelude::*;

verus! {

pub struct Coach {
    pub id: String,
    pub email: String,
    pub full_name: String,
}

impl Clone for Coach {
    fn clone(&self) -> (r: Self)
        ensures
            r == *self,
    {
        Coach { id: self.id.clone(), email: self.email.clone(), full_name: self.full_name.clone() }
    }
}

impl Coach {
    pub fn id(&self) -> (r: &str)
        ensures
            r@ == self.id@,
    {
        self.id.as_str()
    }

    pub fn email(&self) -> (r: &str)
        ensures
            r@ == self.email@,
    {
        self.email.as_str()
    }

    pub fn full_name(&self) -> (r: &str)
        ensures
            r@ == self.full_name@,
    {
        self.full_name.as_str()
    }
}

} // verus!
