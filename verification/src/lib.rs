//! Archiving of chat votes (`+2` / `-2`) cast during live broadcasts.
//!
//! The crate holds the rules of the archiver: how a message is classified,
//! how a paginated resource is read to its end, how a broadcast in progress
//! is caught up, how the watch registry and the event session react to what
//! they are told, and what the store keeps.

pub mod classify;
pub mod error;
pub mod gql;
pub mod shared;
pub mod paginate;
pub mod time;
pub mod ids;
pub mod entities;
pub mod database;
pub mod laws;
pub mod catchup;
pub mod events;
pub mod broadcaster;
pub mod state;
pub mod watcher;
pub mod socket;
pub mod session;
pub mod frames;
pub mod archiver;
pub mod onboarding;
