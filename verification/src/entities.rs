//! The rows that the store keeps, one module for each table.

pub mod broadcasters;
pub mod broadcasts;
pub mod chatters;
pub mod messages;
