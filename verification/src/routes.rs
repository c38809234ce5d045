//! What a request carries in its body, and what a handler decides from it.

pub mod products;
pub mod reactions;
pub mod s3;
pub mod suggestions;
pub mod users;
