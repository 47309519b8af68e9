//! A small HTTP service with three fixed routes, request tracing and
//! Prometheus metrics.
//!
//! The library holds what the service answers and how its router is put
//! together; binding the socket and serving is left to the program around it.

pub mod endpoint;
pub mod exposition;
pub mod handlers;
pub mod reply;
pub mod routing;
pub mod settings;

pub use handlers::{health, home, metrics, metrics_reply};
pub use reply::Reply;
