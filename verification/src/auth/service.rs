//! The token service.
pub mod jwt;
