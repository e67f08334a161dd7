//! Explicit Runge-Kutta methods for systems of ordinary differential
//! equations `dy/dt = f(t, y)`, with the coefficients of a method checked
//! when it is built and each step stated against the method's formula.

pub mod problem;
pub mod runge_kutta;
pub mod scalar;
pub mod system;
