//! Tokens that grant the right to modify a folder.
pub mod service;
