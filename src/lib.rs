//! Probability density, mass, cumulative and survival functions of common
//! distributions, packaged as column-wise scalar functions for a query engine.
//!
//! The numerical work is done by `statrs`; this crate holds the row-wise batch
//! evaluation, the catalogue of function descriptors, the function registry and
//! the integer-parameter constructors, all of it verified.

pub mod batch;
pub mod distribution;
pub mod factory;
pub mod registry;
pub mod udf;
