//! Shared pieces of the services: the split between business and internal errors.
pub mod error;
