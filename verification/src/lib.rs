use vstd::prelude::*;

pub mod auth;
pub mod cache;
pub mod decimal;
pub mod domain_macros;
pub mod download;
pub mod files;
pub mod folders;
pub mod grpc;
pub mod id_generator;
pub mod into_string;
pub mod models;
pub mod service;
pub mod service_macros;
pub mod text;

verus! {

} // verus!
