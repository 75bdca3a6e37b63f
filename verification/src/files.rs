//! Files: their repository cache and the files service.
pub mod repository;
pub mod service;
pub mod storage;
