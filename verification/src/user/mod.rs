mod user;
mod user_unchecked;

pub use user::User;
pub use user_unchecked::UserUnchecked;
