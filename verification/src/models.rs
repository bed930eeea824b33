//! The domain records and their row codecs.

pub mod user;
pub mod post;

pub use post::Post;
pub use user::User;
