//! The problems that can be posed for a differential equation system.

pub mod initial_value;
