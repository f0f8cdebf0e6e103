//! Error taxonomy for `csvpivot`, a CSV pivot-table tool.
//!
//! The library defines the closed set of recoverable error conditions the
//! tool can surface and how each one is rendered to the user.

pub mod decimal;
pub mod errors;
