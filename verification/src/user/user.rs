use vstd::prelude::*;

use crate::config::{UNKNOWN_USER_ID, UNKNOWN_USERNAME};

verus! {

/// Holds data about a user.
#[derive(Debug, Clone)]
pub struct User {
    id: usize,
    username: String,
    password: String,
}

impl View for User {
    type V = (usize, Seq<char>, Seq<char>);

    /// The id, the username and the password.
    closed spec fn view(&self) -> (usize, Seq<char>, Seq<char>) {
        (self.id, self.username@, self.password@)
    }
}

impl Default for User {
    /// The user that stands for an unknown user: id [UNKNOWN_USER_ID], username
    /// [UNKNOWN_USERNAME], password "None".
    fn default() -> (u: User)
        ensures
            u@ == (UNKNOWN_USER_ID as usize, UNKNOWN_USERNAME@, "None"@),
    {
        User {
            id: UNKNOWN_USER_ID as usize,
            username: String::from_str(UNKNOWN_USERNAME),
            password: String::from_str("None"),
        }
    }
}

impl User {
    /// Creates a new user.
    pub fn new(id: usize, username: String, password: String) -> (u: User)
        ensures
            u@ == (id, username@, password@),
    {
        User { id, username, password }
    }

    /// Returns the user's id.
    pub fn id(&self) -> (id: usize)
        ensures
            id == self@.0,
    {
        self.id
    }

    /// Returns the user's username.
    pub fn username(&self) -> (username: String)
        ensures
            username@ == self@.1,
    {
        self.username.clone()
    }

    /// Returns the user's password.
    pub fn password(&self) -> (password: String)
        ensures
            password@ == self@.2,
    {
        self.password.clone()
    }

    /// A copy of this user.
    pub(crate) fn duplicate(&self) -> (u: User)
        ensures
            u@ == self@,
    {
        User::new(self.id, self.username.clone(), self.password.clone())
    }
}

} // verus!
