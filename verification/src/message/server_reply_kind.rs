use vstd::prelude::*;

verus! {

/// Kind of a reply that the server sends to a client.
#[derive(Debug, Clone)]
pub enum ServerReplyKind {
    /// An error, with its message.
    Error(String),
    /// The reply carries a user.
    User,
}

} // verus!
