//! The `Model` derive: how its attribute reads, which newtypes and input structs it
//! generates for a model, and the code it emits.
pub mod args;
pub mod entry;
pub mod generator;
pub mod newtype;
pub mod render;
pub mod syntax;
