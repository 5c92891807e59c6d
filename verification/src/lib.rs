//! Boundary rules for crowdfunding campaigns: the admissible ranges of the
//! campaign parameters, the clamping helpers and the derived amounts.

pub mod proptest_generator_boundary;
pub mod muldiv;
pub mod laws;
