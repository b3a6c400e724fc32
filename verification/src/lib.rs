//! Lifecycle of the secret that unlocks the encrypted journal database.
//!
//! The secret lives in the operating system's credential store. A copy that an
//! earlier storage scheme left on disk is moved into the credential store and
//! then removed. The protocol that does so is a state machine: it names the
//! next file or store operation, and the caller answers with its result. The
//! opening of the database with the secret is a state machine of the same
//! kind.

pub mod error;
pub mod text;
pub mod store;
pub mod cache;
pub mod secret;
pub mod location;
pub mod model;
pub mod protocol;
pub mod manager;
pub mod world;
pub mod opening;
pub mod opener;
