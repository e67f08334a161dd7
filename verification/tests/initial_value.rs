use diffeq::problem::initial_value::{
    EmbeddedSolver, Error, InitialValueProblem, Solver, SolverBuilder,
};
use diffeq::system::System;

#[test]
fn messages_of_the_solver_errors() {
    assert_eq!(Error::ConvergenceFailed.message(), "Convergence failed");
    assert_eq!(Error::MaxIterationsExceeded.message(), "Maximum number of iterations exceeded");
    assert_eq!(Error::ToleranceExceeded.message(), "Tolerance exceeded");
}

/// `dy/dt = -y` from a known value, stepped with Euler's method over `i64`.
struct Decay {
    t: i64,
    y: i64,
}

impl System<i64, i64> for Decay {
    fn derivative(&self, _t: i64, y: i64) -> i64 {
        -y
    }

    fn eval(&mut self, _t: &i64, y: i64) -> i64 {
        -y
    }
}

impl InitialValueProblem<i64, i64> for Decay {
    fn initial_value(&mut self, t0: i64, y0: i64) {
        self.t = t0;
        self.y = y0;
    }
}

struct Euler {
    problem: Decay,
    last: i64,
}

impl Solver<i64, i64> for Euler {
    fn step(&mut self, dt: i64) -> i64 {
        let slope = self.problem.eval(&self.problem.t.clone(), self.problem.y);
        self.problem.t += dt;
        self.problem.y += dt * slope;
        self.last = dt;
        self.problem.y
    }

    fn solve(&mut self, t: i64) -> Result<i64, Error> {
        if t < self.problem.t {
            return Err(Error::ConvergenceFailed);
        }
        while self.problem.t < t {
            self.step(1);
        }
        Ok(self.problem.y)
    }
}

impl EmbeddedSolver<i64, i64> for Euler {
    fn error_estimate(&self) -> i64 {
        0
    }

    fn step_size(&self) -> i64 {
        self.last
    }
}

struct Options {
    t0: i64,
    y0: i64,
}

impl SolverBuilder<i64, i64> for Options {
    type Solver = Euler;

    fn build(self) -> Euler {
        let mut problem = Decay { t: 0, y: 0 };
        problem.initial_value(self.t0, self.y0);
        Euler { problem, last: 0 }
    }
}

#[test]
fn the_solver_traits_can_be_implemented() {
    let mut solver = Options { t0: 2, y0: 8 }.build();
    assert_eq!(solver.step(1), 0);
    assert_eq!(solver.step_size(), 1);
    assert_eq!(solver.error_estimate(), 0);
    assert_eq!(solver.solve(5), Ok(0));
    assert_eq!(solver.solve(1), Err(Error::ConvergenceFailed));
}
