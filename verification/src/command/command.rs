use vstd::prelude::*;

use crate::message::MessageKind;
use crate::user::{User, UserUnchecked};

verus! {

/// A command given by a user, structured so that it can be turned into a message.
/// Usually constructed by [CommandRaw::process](super::CommandRaw::process).
#[derive(Debug)]
pub enum Command {
    /// Username and password that a user attempts to register with, and the user
    /// that gave the command.
    Register(UserUnchecked, User),
    /// Username and password that a user attempts to log in with, and the user
    /// that gave the command.
    Login(UserUnchecked, User),
    /// Agreement, with the user that gave it.
    Yes(User),
    /// Refusal, with the user that gave it.
    No(User),
    /// Everything that is needed to construct a message: its kind, its author, the
    /// usernames of its recipients, its content, and the name of the file when the
    /// content is a file.
    Send(MessageKind, User, Vec<String>, Vec<u8>, Option<String>),
    /// The command is not known.
    Unknown,
}

} // verus!
