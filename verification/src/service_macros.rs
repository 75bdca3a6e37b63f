//! The planning done by the `service` attribute: which bounds a service trait, its
//! associated types and its methods' futures get, and how results are wrapped.
pub mod args;
pub mod expand;
pub mod generator;
pub mod entry;
