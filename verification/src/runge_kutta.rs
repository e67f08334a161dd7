//! Runge-Kutta methods.

pub mod explicit;
