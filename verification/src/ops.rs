//! The operations of the client: a builder for each request, and the decoding of each reply.
pub mod get;
pub mod put;
pub mod delete;
pub mod list;
pub mod transaction;
pub mod watch;
pub mod compact;
pub mod lease;
pub mod auth;
pub mod user;
pub mod role;
pub mod cluster;
