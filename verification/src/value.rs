//! Fuzzy membership degrees and the trait that turns ordinary data
//! into them.

pub mod membership;
pub mod traits;
