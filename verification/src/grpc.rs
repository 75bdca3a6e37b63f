//! The gRPC front end: configuration, status replies and the handlers' decisions.
pub mod config;
pub mod leaked;
pub mod schema;
pub mod v1;
