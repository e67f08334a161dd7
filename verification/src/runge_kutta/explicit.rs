//! Explicit Runge-Kutta methods, evaluated stage by stage.

use crate::scalar::{Scalar, State};
use crate::system::System;
use vstd::prelude::*;

verus! {

/// The coefficients of a Runge-Kutta method as sequences: the matrix `a` row
/// by row, the weights `b` and the nodes `c`.
///
/// This is what a [`Naive`] holds, and what the formula of a step is stated
/// over.
pub struct Tableau<T> {
    /// The rows of the matrix `a`.
    pub matrix: Seq<Seq<T>>,
    /// The weights `b`.
    pub weights: Seq<T>,
    /// The nodes `c`.
    pub nodes: Seq<T>,
}

/// The coefficients of an explicit Runge-Kutta method with `S` stages.
///
/// A step of size `h` from the state `y` at the time `t` yields
///
/// ```text
/// y + h (b_1 k_1 + ... + b_S k_S)
/// ```
///
/// where `k_i` is the slope of the `i`-th stage,
///
/// ```text
/// k_i = f(t + c_i h, y + h (a_i1 k_1 + ... + a_i,i-1 k_i-1))
/// ```
///
/// A stage reads the coefficients to the left of the diagonal of its row
/// only, and the slopes of the stages before it. A coefficient above the
/// diagonal that is not zero would make a stage depend on a later one;
/// [`Naive::new`] refuses such a matrix.
#[derive(Debug)]
pub struct Naive<T, const S: usize> {
    /// The coefficients `a_ij` of the method.
    pub matrix: [[T; S]; S],
    /// The weights `b_i` of the method.
    pub weights: [T; S],
    /// The nodes `c_i` of the method.
    pub nodes: [T; S],
}

/// Why a set of coefficients was refused.
#[derive(Debug, Clone, Copy, PartialEq, Eq)]
pub enum NaiveError {
    /// The matrix has fewer rows than the method has stages, or one of the
    /// rows has not as many cells as the method has stages.
    MatrixDim,
    /// There are not as many weights as the method has stages.
    WeightsDim,
    /// There are not as many nodes as the method has stages.
    NodesDim,
    /// A cell above the diagonal of the matrix is not zero.
    NonLowerTriangularMatrix,
}

impl NaiveError {
    /// The sentence that describes the error.
    pub open spec fn text(self) -> Seq<char> {
        match self {
            NaiveError::MatrixDim => "The matrix has the wrong dimension."@,
            NaiveError::WeightsDim => "The weights vector has the wrong dimension."@,
            NaiveError::NodesDim => "The nodes vector has the wrong dimension."@,
            NaiveError::NonLowerTriangularMatrix => "The matrix is not strictly lower triangular."@,
        }
    }

    /// Returns the sentence that describes the error.
    pub fn message(&self) -> (s: String)
        ensures
            s@ == self.text(),
    {
        match self {
            NaiveError::MatrixDim => "The matrix has the wrong dimension.".to_owned(),
            NaiveError::WeightsDim => "The weights vector has the wrong dimension.".to_owned(),
            NaiveError::NodesDim => "The nodes vector has the wrong dimension.".to_owned(),
            NaiveError::NonLowerTriangularMatrix => {
                "The matrix is not strictly lower triangular.".to_owned()
            },
        }
    }
}

/// The rows of a matrix that is given as vectors.
pub open spec fn rows<T>(matrix: Seq<Vec<T>>) -> Seq<Seq<T>> {
    matrix.map_values(|row: Vec<T>| row@)
}

/// Whether the first `s` rows of `matrix` are there and hold `s` cells each.
pub open spec fn has_shape<T>(matrix: Seq<Seq<T>>, s: nat) -> bool {
    &&& matrix.len() >= s
    &&& forall|i: int| 0 <= i < s ==> (#[trigger] matrix[i]).len() == s
}

/// Whether each of the first `s` rows of `matrix` is zero to the right of
/// the diagonal, as far as its first `s` cells go.
pub open spec fn zero_above_diagonal<T: Scalar>(matrix: Seq<Seq<T>>, s: nat) -> bool {
    forall|i: int, j: int| 0 <= i < j < s ==> (#[trigger] matrix[i][j]).is_zero_spec()
}

/// The sum `c_0 k_0 + ... + c_(n-1) k_(n-1)` for `n >= 1`, added up from the
/// first term on.
pub open spec fn weighted_sum<T, Y: State<T>>(coefficients: Seq<T>, slopes: Seq<Y>, n: nat) -> Y
    recommends
        1 <= n <= coefficients.len(),
        n <= slopes.len(),
    decreases n,
{
    if n <= 1 {
        slopes[0].scaled_spec(coefficients[0])
    } else {
        weighted_sum(coefficients, slopes, (n - 1) as nat).plus_spec(
            slopes[n - 1].scaled_spec(coefficients[n - 1]),
        )
    }
}

/// The state `y + h (c_0 k_0 + ... + c_(n-1) k_(n-1))`, and `y` itself where
/// the sum has no term.
pub open spec fn displaced<T, Y: State<T>>(
    y: Y,
    h: T,
    coefficients: Seq<T>,
    slopes: Seq<Y>,
    n: nat,
) -> Y
    recommends
        n <= coefficients.len(),
        n <= slopes.len(),
{
    if n == 0 {
        y
    } else {
        y.plus_spec(weighted_sum(coefficients, slopes, n).scaled_spec(h))
    }
}

impl<T: Scalar> Tableau<T> {
    /// The coefficients of a method of `s` stages that are taken from what is
    /// given: the weights, the nodes and the first `s` rows of the matrix.
    pub open spec fn taken(matrix: Seq<Seq<T>>, weights: Seq<T>, nodes: Seq<T>, s: nat) -> Self {
        Tableau { matrix: matrix.take(s as int), weights, nodes }
    }

    /// The number of stages of the method.
    pub open spec fn stages(self) -> nat {
        self.weights.len()
    }

    /// Whether there are as many nodes as weights, and as many rows and
    /// columns of the matrix.
    pub open spec fn is_square(self) -> bool {
        &&& self.nodes.len() == self.stages()
        &&& self.matrix.len() == self.stages()
        &&& forall|i: int| 0 <= i < self.stages() ==> (#[trigger] self.matrix[i]).len() == self.stages()
    }

    /// Whether the method is explicit: every cell above the diagonal of the
    /// matrix is zero.
    pub open spec fn is_explicit(self) -> bool {
        zero_above_diagonal(self.matrix, self.stages())
    }

    /// The slopes `k_0, ..., k_(n-1)` of the first `n` stages of a step of
    /// size `h` from the state `y` at the time `t`.
    pub open spec fn slopes<Y: State<T>, F: System<T, Y>>(
        self,
        system: F,
        t: T,
        y: Y,
        h: T,
        n: nat,
    ) -> Seq<Y>
        recommends
            self.is_square(),
            n <= self.stages(),
        decreases n,
    {
        if n == 0 {
            Seq::empty()
        } else {
            let i = (n - 1) as nat;
            let before = self.slopes(system, t, y, h, i);
            before.push(
                system.derivative(
                    t.plus_spec(self.nodes[i as int].times_spec(h)),
                    displaced(y, h, self.matrix[i as int], before, i),
                ),
            )
        }
    }

    /// The state after a step of size `h` from the state `y` at the time `t`.
    pub open spec fn step<Y: State<T>, F: System<T, Y>>(self, system: F, t: T, y: Y, h: T) -> Y
        recommends
            self.is_square(),
    {
        displaced(y, h, self.weights, self.slopes(system, t, y, h, self.stages()), self.stages())
    }

    /// Whether `other` has the same weights, the same nodes and the same
    /// matrix below the diagonal.
    pub open spec fn same_below_diagonal(self, other: Self) -> bool {
        &&& self.weights == other.weights
        &&& self.nodes == other.nodes
        &&& forall|i: int, j: int|
            0 <= j < i < self.stages() ==> #[trigger] self.matrix[i][j] == other.matrix[i][j]
    }

    /// Two methods that differ on the diagonal and above it only have the
    /// same slopes in every stage.
    pub proof fn slopes_read_below_the_diagonal<Y: State<T>, F: System<T, Y>>(
        self,
        other: Self,
        system: F,
        t: T,
        y: Y,
        h: T,
        n: nat,
    )
        requires
            self.same_below_diagonal(other),
            n <= self.stages(),
        ensures
            self.slopes(system, t, y, h, n) == other.slopes(system, t, y, h, n),
        decreases n,
    {
        if n > 0 {
            let i = (n - 1) as nat;
            self.slopes_read_below_the_diagonal(other, system, t, y, h, i);
            let before = self.slopes(system, t, y, h, i);
            if i > 0 {
                weighted_sum_reads_a_prefix(
                    self.matrix[i as int],
                    other.matrix[i as int],
                    before,
                    before,
                    i,
                );
            }
        }
    }

    /// A step reads the matrix below its diagonal only: two methods that
    /// differ on the diagonal and above it take the same step.
    pub proof fn step_reads_below_the_diagonal<Y: State<T>, F: System<T, Y>>(
        self,
        other: Self,
        system: F,
        t: T,
        y: Y,
        h: T,
    )
        requires
            self.same_below_diagonal(other),
        ensures
            self.step(system, t, y, h) == other.step(system, t, y, h),
    {
        self.slopes_read_below_the_diagonal(other, system, t, y, h, self.stages());
    }
}

/// A sum of `n` terms reads the first `n` coefficients and slopes only.
pub proof fn weighted_sum_reads_a_prefix<T, Y: State<T>>(
    coefficients: Seq<T>,
    others: Seq<T>,
    slopes: Seq<Y>,
    other_slopes: Seq<Y>,
    n: nat,
)
    requires
        n >= 1,
        forall|j: int| 0 <= j < n ==> coefficients[j] == others[j],
        forall|j: int| 0 <= j < n ==> slopes[j] == other_slopes[j],
    ensures
        weighted_sum(coefficients, slopes, n) == weighted_sum(others, other_slopes, n),
    decreases n,
{
    if n > 1 {
        weighted_sum_reads_a_prefix(coefficients, others, slopes, other_slopes, (n - 1) as nat);
    }
}

impl<T: Scalar, const S: usize> View for Naive<T, S> {
    type V = Tableau<T>;

    open spec fn view(&self) -> Tableau<T> {
        Tableau {
            matrix: Seq::new(S as nat, |i: int| self.matrix[i]@),
            weights: self.weights@,
            nodes: self.nodes@,
        }
    }
}

/// `TryFrom<Vec<T>>` of std for `[T; N]`: the items of the vector in their
/// order where there are exactly `N` of them, the vector itself otherwise.
#[verifier::external_body]
fn into_array<T, const N: usize>(items: Vec<T>) -> (r: Result<[T; N], Vec<T>>)
    ensures
        items@.len() == N ==> r is Ok && r->Ok_0@ == items@,
        items@.len() != N ==> r is Err && r->Err_0 == items,
{
    <[T; N]>::try_from(items)
}

/// Takes the first `S` rows of `matrix` as the rows of a square grid, where
/// they are there and hold `S` cells each. Rows after these are not looked
/// at.
fn collect_rows<T, const S: usize>(matrix: Vec<Vec<T>>) -> (r: Option<[[T; S]; S]>)
    ensures
        r is Some <==> has_shape(rows(matrix@), S as nat),
        r is Some ==> forall|i: int| 0 <= i < S ==> (#[trigger] r->Some_0[i])@ == matrix@[i]@,
{
    let mut grid: Vec<[T; S]> = Vec::new();
    if S > 0 {
        for row in given: matrix
            invariant
                S > 0,
                given.seq() == matrix@,
                grid@.len() == given.index() < S,
                forall|p: int| 0 <= p < given.index() ==> (#[trigger] rows(matrix@)[p]).len() == S,
                forall|p: int| 0 <= p < given.index() ==> (#[trigger] grid@[p])@ == matrix@[p]@,
        {
            assert(row@ == rows(matrix@)[given.index()]);
            match into_array::<T, S>(row) {
                Err(_) => {
                    return None;
                },
                Ok(cells) => {
                    grid.push(cells);
                },
            }
            if grid.len() == S {
                return into_array::<[T; S], S>(grid).ok();
            }
        }
        return None;
    }
    into_array::<[T; S], S>(grid).ok()
}

/// Computes `y + h (c_0 k_0 + ... + c_(n-1) k_(n-1))`.
fn displace<T: Scalar, Y: State<T>, const S: usize>(
    y: &Y,
    h: &T,
    coefficients: &[T; S],
    slopes: &Vec<Y>,
    n: usize,
) -> (r: Y)
    requires
        n <= S,
        n <= slopes@.len(),
    ensures
        r == displaced(*y, *h, coefficients@, slopes@, n as nat),
{
    if n == 0 {
        return y.duplicate();
    }
    let mut sum = slopes[0].scaled(&coefficients[0]);
    let mut j: usize = 1;
    while j < n
        invariant
            1 <= j <= n <= S,
            n <= slopes@.len(),
            sum == weighted_sum(coefficients@, slopes@, j as nat),
        decreases n - j,
    {
        sum = sum.plus(&slopes[j].scaled(&coefficients[j]));
        j = j + 1;
    }
    y.plus(&sum.scaled(h))
}

impl<T: Scalar, const S: usize> Naive<T, S> {
    /// Builds the method from its coefficients.
    ///
    /// The checks are made in this order, and the first that fails decides
    /// the error:
    ///
    /// - there are exactly `S` weights;
    /// - there are exactly `S` nodes;
    /// - the matrix has at least `S` rows, and each of the first `S` holds
    ///   exactly `S` cells (further rows are ignored);
    /// - every cell above the diagonal is zero.
    ///
    /// The cells on the diagonal are not checked: no stage reads them, and
    /// the method that is built holds them as they were given.
    pub fn new(matrix: Vec<Vec<T>>, weights: Vec<T>, nodes: Vec<T>) -> (r: Result<Self, NaiveError>)
        ensures
            weights@.len() != S ==> r == Err::<Self, NaiveError>(NaiveError::WeightsDim),
            weights@.len() == S && nodes@.len() != S ==> r == Err::<Self, NaiveError>(
                NaiveError::NodesDim,
            ),
            weights@.len() == S && nodes@.len() == S && !has_shape(rows(matrix@), S as nat) ==> r
                == Err::<Self, NaiveError>(NaiveError::MatrixDim),
            weights@.len() == S && nodes@.len() == S && has_shape(rows(matrix@), S as nat)
                && !zero_above_diagonal(rows(matrix@), S as nat) ==> r == Err::<Self, NaiveError>(
                NaiveError::NonLowerTriangularMatrix,
            ),
            weights@.len() == S && nodes@.len() == S && has_shape(rows(matrix@), S as nat)
                && zero_above_diagonal(rows(matrix@), S as nat) ==> (r matches Ok(method)
                && method@ == Tableau::taken(rows(matrix@), weights@, nodes@, S as nat)
                && method@.is_explicit()),
    {
        let weights = match into_array::<T, S>(weights) {
            Ok(cells) => cells,
            Err(_) => {
                return Err(NaiveError::WeightsDim);
            },
        };
        let nodes = match into_array::<T, S>(nodes) {
            Ok(cells) => cells,
            Err(_) => {
                return Err(NaiveError::NodesDim);
            },
        };
        let cells = match collect_rows::<T, S>(matrix) {
            Some(cells) => cells,
            None => {
                return Err(NaiveError::MatrixDim);
            },
        };
        let method = Naive { matrix: cells, weights, nodes };
        proof {
            assert forall|i: int| 0 <= i < S implies #[trigger] method@.matrix[i] == rows(
                matrix@,
            )[i] by {
                assert(method.matrix[i]@ == matrix@[i]@);
            }
            assert(method@.matrix =~= rows(matrix@).take(S as int));
            if method@.is_explicit() {
                assert forall|i: int, j: int| 0 <= i < j < S implies (#[trigger] rows(
                    matrix@,
                )[i][j]).is_zero_spec() by {
                    assert(method@.matrix[i][j].is_zero_spec());
                }
            }
        }
        if !method.is_explicit() {
            return Err(NaiveError::NonLowerTriangularMatrix);
        }
        Ok(method)
    }

    /// Tells whether the method is explicit: whether every cell above the
    /// diagonal of its matrix is zero.
    ///
    /// The matrix is scanned row by row, each row from left to right, up to
    /// the first cell above the diagonal that is not zero.
    pub fn is_explicit(&self) -> (r: bool)
        ensures
            r == self@.is_explicit(),
    {
        let mut i: usize = 0;
        while i < S
            invariant
                i <= S,
                forall|p: int, q: int|
                    0 <= p < i && p < q < S ==> (#[trigger] self@.matrix[p][q]).is_zero_spec(),
            decreases S - i,
        {
            let mut j: usize = 0;
            while j < S
                invariant
                    i < S,
                    j <= S,
                    forall|p: int, q: int|
                        0 <= p < i && p < q < S ==> (#[trigger] self@.matrix[p][q]).is_zero_spec(),
                    forall|q: int| i < q < j ==> (#[trigger] self@.matrix[i as int][q]).is_zero_spec(),
                decreases S - j,
            {
                if i < j && !self.matrix[i][j].is_zero() {
                    assert(!self@.matrix[i as int][j as int].is_zero_spec());
                    return false;
                }
                j = j + 1;
            }
            i = i + 1;
        }
        true
    }

    /// Advances the state `y` of `system` at the time `t` by one step of size
    /// `dt`. A negative `dt` steps backwards in time.
    ///
    /// The stages are evaluated in their order, each with one call of
    /// [`System::eval`].
    pub fn step<Y: State<T>, F: System<T, Y>>(&self, system: &mut F, t: &T, y: Y, dt: T) -> (r: Y)
        ensures
            r == self@.step(*old(system), *t, y, dt),
            forall|u: T, z: Y| #[trigger] final(system).derivative(u, z) == old(system).derivative(u, z),
    {
        let ghost law = *system;
        let mut slopes: Vec<Y> = Vec::new();
        let mut i: usize = 0;
        while i < S
            invariant
                i <= S,
                slopes@.len() == i,
                slopes@ == self@.slopes(law, *t, y, dt, i as nat),
                forall|u: T, z: Y| #[trigger] system.derivative(u, z) == law.derivative(u, z),
            decreases S - i,
        {
            let time = t.plus(&self.nodes[i].times(&dt));
            let state = displace(&y, &dt, &self.matrix[i], &slopes, i);
            let slope = system.eval(&time, state);
            slopes.push(slope);
            i = i + 1;
        }
        displace(&y, &dt, &self.weights, &slopes, S)
    }

    /// A method of `S` stages holds `S` weights, `S` nodes and `S` rows of `S`
    /// cells.
    pub proof fn view_is_square(&self)
        ensures
            self@.stages() == S,
            self@.is_square(),
    {
    }

    /// Building is a function of the coefficients: two methods that were
    /// built from the same matrix, weights and nodes are the same method,
    /// and they take the same step from the same state at the same time.
    pub proof fn built_alike<Y: State<T>, F: System<T, Y>>(
        first: Self,
        second: Self,
        matrix: Seq<Seq<T>>,
        weights: Seq<T>,
        nodes: Seq<T>,
        system: F,
        t: T,
        y: Y,
        h: T,
    )
        requires
            first@ == Tableau::taken(matrix, weights, nodes, S as nat),
            second@ == Tableau::taken(matrix, weights, nodes, S as nat),
        ensures
            first == second,
            first@.step(system, t, y, h) == second@.step(system, t, y, h),
    {
        assert(first.weights =~= second.weights);
        assert(first.nodes =~= second.nodes);
        assert forall|i: int| 0 <= i < S implies first.matrix[i] == second.matrix[i] by {
            assert(first@.matrix[i] == second@.matrix[i]);
            assert(first.matrix[i] =~= second.matrix[i]);
        }
        assert(first.matrix =~= second.matrix);
    }
}

} // verus!
