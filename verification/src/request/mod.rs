mod request;
/// Requests without data and the kinds of requests.
pub mod request_kind;

pub use request::Request;
pub use request_kind::{RequestKind, request_kind_text};
