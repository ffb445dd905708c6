//! Scalar values, datatypes and the row codec.

pub mod tuple;
pub mod types;
