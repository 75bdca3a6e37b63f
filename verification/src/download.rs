//! Downloads of a file by the public ids of its folder and of itself.
pub mod service;
