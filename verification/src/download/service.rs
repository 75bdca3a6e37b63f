//! The download service.
pub mod basic;
