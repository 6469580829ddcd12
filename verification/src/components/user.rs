use vstd::prelude::*;

pub use crate::user::UserUnchecked;

verus! {

/// A user in the components protocol, identified by four bytes.
#[derive(Debug)]
pub struct User {
    id: [u8; 4],
    username: String,
    password: String,
}

impl View for User {
    type V = (Seq<u8>, Seq<char>, Seq<char>);

    /// The id, the username and the password.
    closed spec fn view(&self) -> (Seq<u8>, Seq<char>, Seq<char>) {
        (self.id@, self.username@, self.password@)
    }
}

impl User {
    /// Creates a new user.
    pub fn new(id: [u8; 4], username: String, password: String) -> (u: User)
        ensures
            u@ == (id@, username@, password@),
    {
        User { id, username, password }
    }
}

} // verus!
