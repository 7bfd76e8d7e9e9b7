//! Idempotency for web services: a request that is sent again under its key is
//! answered as it was the first time, and is handled once.
//!
//! The library decides; it neither reads nor writes. A caller runs the steps of
//! [`middleware`] against a table of records, with the rows and statements that
//! [`sqlite_store`] gives. What holds of all this together is in [`laws`], and what
//! holds of the calls is in [`request_laws`], [`store_laws`] and [`edge_laws`].

pub mod axum_integration;
pub mod client_sdk;
pub mod edge_laws;
pub mod grpc_integration;
pub mod headers;
pub mod laws;
pub mod middleware;
pub mod request_laws;
pub mod rows;
pub mod sqlite_store;
pub mod statements;
pub mod store_laws;
pub mod table;
pub mod text;
pub mod time;
pub mod types;

pub use middleware::IdempotencyMiddleware;
pub use time::{Duration, Timestamp};
pub use types::{
    CachedResponse, IdempotencyError, IdempotencyRecord, IdempotencyStatus, LockResult,
};
