//! Token authority, request guard and reaction bound of a portfolio-sharing
//! backend, with the rules of each stated as contracts.

pub mod db;
pub mod email;
pub mod error;
pub mod models;
pub mod payload;
pub mod routes;
pub mod time;
pub mod token;
pub mod urlcode;
pub mod validation;
