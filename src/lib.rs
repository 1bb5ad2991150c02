//! A user record with a one-line summary, a small message type, and the
//! summary capability that ties them together.

pub mod message;
pub mod summary;
pub mod user;

pub use message::Message;
pub use summary::Summary;
pub use user::{create_user, summary_line, User};
