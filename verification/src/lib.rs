//! Framework that gives structure to data exchanged over a TCP connection.
//!
//! The library establishes how data are structured, framed into packets and
//! reassembled. The byte-level formats, the command parser and the decisions
//! taken while receiving a message are verified; reading from and writing to
//! streams, files and the terminal is left to the caller.
use vstd::prelude::*;

/// Wrapper around `Vec<u8>` used to hold data in byte form, together with the
/// conversions from and into bytes.
pub mod bytes;

/// Error type of this library.
pub mod error;

/// Access to chrono's `DateTime<Utc>` by timestamps.
pub mod datetime;

/// Conversions between bytes and text.
pub mod utf8;

/// Constants shared by the whole library.
pub mod config;

/// [Packet](packet::Packet) and [PacketKind](packet::PacketKind), the building
/// blocks that every message is sent in.
pub mod packet;

/// Conversions between values and buffers (`Vec<u8>`).
pub mod buffer;

/// Message kinds and the handling of a message's content.
pub mod message;

/// Users, checked and unchecked.
pub mod user;

/// Helpers on text held as characters.
pub mod text;

/// Commands entered by a user and their parsing.
pub mod command;

/// Requests from clients to the server.
pub mod request;

/// Forms of messages, metadata and packets meant to be read by people.
pub mod pretty_structs;

/// An error type that is generic over the kinds of errors.
pub mod error_testing;

/// Re-export of the items that most users of the library need.
pub mod prelude;

/// The components protocol: packets carrying their data inside their kind,
/// sizes in eight bytes, and messages assembled from metadata, additional
/// information and content packets.
pub mod components;
