//! Distance metrics for vector similarity search: the selector that maps a
//! configuration string to a metric and back, and the checks that guard the
//! distance evaluator.
pub mod errors;
pub mod evaluator;
pub mod metric;
