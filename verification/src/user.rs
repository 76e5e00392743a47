//! A user account as carried in wire messages.

use vstd::prelude::*;

verus! {

/// A user, identified by name.
#[derive(Debug, PartialEq, Eq)]
pub struct User {
    id: String,
}

impl View for User {
    type V = Seq<char>;

    closed spec fn view(&self) -> Seq<char> {
        self.id@
    }
}

impl User {
    pub fn new(id: String) -> (r: User)
        ensures
            r@ == id@,
    {
        User { id }
    }
}

} // verus!
