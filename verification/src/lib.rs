//! Safe, verified building blocks of the JavaScriptCore bindings: property
//! flags, the class hierarchy bookkeeping used to find the Rust value behind a
//! JavaScript instance, and the conversions of values read back from the engine.

pub mod flags;
pub mod class;
pub mod value_ref;
