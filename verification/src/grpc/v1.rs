//! Version 1 of the API.
pub mod dto;
pub mod files;
pub mod folder;
pub mod share;
