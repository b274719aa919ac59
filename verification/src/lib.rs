//! Ownership-scoped workspace service core.
//!
//! Every workspace operation is scoped to the owner named by a request
//! header. This crate holds the rules of that scoping: how the owner is read
//! from the header fields, how a validated request becomes one command for the
//! store, how the store's reply becomes a response, and a reference model of
//! the store against which the isolation laws are proved.

pub mod status;
pub mod error;
pub mod owner;
pub mod users;
pub mod workspaces;
pub mod gateway;
pub mod response;
pub mod store;
pub mod dispatch;
pub mod laws;
