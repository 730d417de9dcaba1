//! Chat and notification delivery core of a social matchmaking service.
//!
//! The library routes messages between two mutually connected profiles,
//! keeps conversation history, and records life-cycle events (likes,
//! visits, messages) as notifications.  All state lives in a
//! [`store::ConversationStore`] value, and every operation is a verified
//! transition over it; the process edge (HTTP, sockets, the file system)
//! stays outside the library and drives these transitions.

pub mod chat;
pub mod clock;
pub mod error;
pub mod keys;
pub mod notification;
pub mod profile;
pub mod registry;
pub mod store;

pub use error::AppError;
