mod error;
mod error_kind;

pub use error::{NetCommsError, kind_title, error_text, header_lead};
pub use error_kind::NetCommsErrorKind;
