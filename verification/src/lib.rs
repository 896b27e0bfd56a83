//! Export of dictionary-encoded columns, and requests for file segments held on a device.
//!
//! A dictionary-encoded column is a list of codes into an array of values. It can be handed to a
//! database as a dictionary (the values once, and a selection of them for each chunk of codes) or
//! as a flat column. This library decides which of these is used, keeps converted values for later
//! columns over the same dictionary, and proves that every choice exports the same rows as long as
//! the codes that are exported as a dictionary are below 2^32: a selection keeps 32 bits of a code.
//!
//! A row is an `Option<u64>`: `None` is a null, and the number stands for the scalar.
pub mod array;
pub mod cache;
pub mod compute;
pub mod dict;
pub mod duckdb;
pub mod exporter;
pub mod laws;
pub mod mask;
pub mod meaning;
pub mod outcomes;
pub mod segments;

