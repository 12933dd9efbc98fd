//! The read cache: which key ranges it holds, their stores, and the rules by which it serves
//! reads and applies watch events.
pub mod range_spec;
pub mod store;
pub mod state;
