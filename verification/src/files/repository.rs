//! The files repository and its cache layer.
pub mod cache;
pub mod db;
