//! Fuzzy operation sets: the pluggable meanings of negation,
//! conjunction and disjunction.

pub mod list;
pub mod marker;
pub mod traits;
