//! The stored state that the rules read and change.

pub mod reactions;
pub mod tags;
pub mod users;
