//! The records that the rules speak of.

pub mod product;
pub mod reaction;
pub mod tag;
pub mod user;
