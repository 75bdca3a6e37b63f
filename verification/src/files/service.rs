//! The files service: uploads, lookups and deletions of a folder's files.
pub mod basic;
