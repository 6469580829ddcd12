mod error;

pub use error::{NetCommsError, NetCommsErrorType};
