//! Initial value problems and the solvers for them.

use crate::system::System;
use vstd::prelude::*;

verus! {

/// An initial value problem: a system whose state is known at one point in
/// time, `y(t0) = y0`, and sought at others. Despite the name, the known
/// point need not be the earliest.
pub trait InitialValueProblem<T, Y>: System<T, Y> {
    /// Sets the known value of the system to be solved.
    fn initial_value(&mut self, t0: T, y0: Y);
}

/// Why a solver gave up.
#[derive(Debug, Clone, Copy, PartialEq, Eq)]
pub enum Error {
    /// The solver failed to converge.
    ConvergenceFailed,
    /// The solver failed to converge within the number of iterations it was
    /// allowed.
    MaxIterationsExceeded,
    /// The solver failed to converge within the tolerance it was given.
    ToleranceExceeded,
}

impl Error {
    /// The sentence that describes the error.
    pub open spec fn text(self) -> Seq<char> {
        match self {
            Error::ConvergenceFailed => "Convergence failed"@,
            Error::MaxIterationsExceeded => "Maximum number of iterations exceeded"@,
            Error::ToleranceExceeded => "Tolerance exceeded"@,
        }
    }

    /// Returns the sentence that describes the error.
    pub fn message(&self) -> (s: String)
        ensures
            s@ == self.text(),
    {
        match self {
            Error::ConvergenceFailed => "Convergence failed".to_owned(),
            Error::MaxIterationsExceeded => "Maximum number of iterations exceeded".to_owned(),
            Error::ToleranceExceeded => "Tolerance exceeded".to_owned(),
        }
    }
}

/// The options of a solver, from which the solver is built.
pub trait SolverBuilder<T, Y> {
    /// The solver that is built.
    type Solver: Solver<T, Y>;

    /// Builds the solver.
    fn build(self) -> Self::Solver;
}

/// A solver for an initial value problem.
///
/// A solver is usually made through its [`SolverBuilder`], and each has
/// options of its own to control the algorithm.
pub trait Solver<T, Y> {
    /// Steps the system by `dt` and returns the state it reaches. A negative
    /// `dt` steps backwards in time.
    fn step(&mut self, dt: T) -> Y;

    /// Solves the system until the time `t` is reached and returns the state
    /// there. Where `t` lies before the current time, the solver steps
    /// backwards.
    fn solve(&mut self, t: T) -> Result<Y, Error>;
}

/// A solver that carries a second, embedded method to judge its steps by.
pub trait EmbeddedSolver<T, Y> {
    /// The error estimate of the last step: the difference between the
    /// states that the embedded method and the main method reached,
    /// `h (d_1 k_1 + ... + d_s k_s)`, where `h` is the size of the last step
    /// and `d_j` the difference between the weights of the two methods.
    fn error_estimate(&self) -> Y;

    /// The size that the error estimate suggests for the next step.
    fn step_size(&self) -> T;
}

} // verus!
