//! The connection: its lifecycle, its calls and its subscriptions.
pub mod backoff;
pub mod client;
pub mod clock;
pub mod connection;
pub mod correlate;
pub mod laws;
pub mod liveness;
pub mod session;
pub mod standby;
pub mod subscription;
