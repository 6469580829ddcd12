use vstd::prelude::*;

use crate::user::UserUnchecked;

verus! {

/// Holds data about requests from a client to the server.
#[derive(Debug, Clone)]
pub enum Request {
    /// Request to log in.
    Login(UserUnchecked),
    /// Request to register.
    Register(UserUnchecked),
    /// Request to get the messages that were sent to the requesting client.
    GetWaitingMessagesAuto,
    /// Used if the request is not recognised.
    Unknown,
}

} // verus!
