//! Folders: their repository cache and the folders service.
pub mod repository;
pub mod service;
