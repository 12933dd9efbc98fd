//! An etcd v3 client library: request builders, response decoding, error classification, key
//! range encoding, and the decision logic of the read cache and the lease pool.
pub mod ids;

pub use ids::{ClusterId, LeaseId, MemberId, ResponseHeader, Revision, Term, Version};
pub mod keys;
pub mod keyconv;
pub mod range;
pub mod record;
pub mod pb;
pub mod convert;
pub mod text;
pub mod status;
pub mod errors;
pub mod time;
pub mod retry;
pub mod ops;
pub mod cache;
pub mod lease_pool;
pub mod metrics;
pub mod driver;
pub mod server_config;
pub mod endpoints;
