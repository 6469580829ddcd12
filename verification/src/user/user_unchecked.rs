use vstd::prelude::*;

verus! {

/// Holds data about a user that need not be valid, as sent in requests so that
/// the server can check them.
#[derive(Debug, Clone)]
pub struct UserUnchecked {
    pub username: String,
    pub password: String,
}

} // verus!
