//! Differential equation systems.
//!
//! A system is given by the equation `dy/dt = f(t, y)`, where `y` will in
//! general be a vector-valued function of the time `t`.

use vstd::prelude::*;

verus! {

/// A differential equation system `dy/dt = f(t, y)`, with the time `t` of
/// type `T` and the state `y` of type `Y`.
pub trait System<T, Y> {
    /// The right-hand side `f(t, y)` of the equation.
    spec fn derivative(&self, t: T, y: Y) -> Y;

    /// Computes the derivative of the state `y` with respect to `t` at the
    /// given time.
    ///
    /// The state is taken by value and a value of the same type is returned,
    /// so that an implementation can reuse its storage. The system may keep
    /// scratch data of its own between calls, but the equation it stands for
    /// stays the same.
    fn eval(&mut self, t: &T, y: Y) -> (dy: Y)
        ensures
            dy == old(self).derivative(*t, y),
            forall|u: T, z: Y| #[trigger] final(self).derivative(u, z) == old(self).derivative(u, z),
    ;
}

} // verus!
