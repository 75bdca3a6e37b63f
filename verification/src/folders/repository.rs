//! The folders repository and its cache layer.
pub mod cache;
pub mod db;
