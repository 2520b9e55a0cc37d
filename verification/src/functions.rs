//! Assembling the linear system, and reading its solution off a
//! singular value decomposition.
//!
//! The homography sought is the vector `h` that comes closest to satisfying
//! `A h = 0`, where `A` holds the blocks of all correspondences one under the
//! other. That vector is the right singular vector of `A` which belongs to the
//! smallest singular value. Computing a decomposition is numerical work that
//! lies outside this crate: [`solve`] is handed the routine that does it.
use vstd::prelude::*;
use crate::interface::{Matrix2x9, WithRestriction};
use crate::scalar::Scalar;

verus! {

/// The stacked system: any number of rows, nine columns.
pub struct DesignMatrix<T> {
    pub rows: Vec<[T; 9]>,
}

impl<T> View for DesignMatrix<T> {
    type V = Seq<Seq<T>>;

    open spec fn view(&self) -> Seq<Seq<T>> {
        Seq::new(self.rows@.len(), |i: int| self.rows@[i]@)
    }
}

impl<T: Copy> DesignMatrix<T> {
    pub fn nrows(&self) -> (n: usize)
        ensures
            n == self@.len(),
    {
        self.rows.len()
    }

    pub fn ncols(&self) -> (n: usize)
        ensures
            n == 9,
            forall|i: int| 0 <= i < self@.len() ==> n == (#[trigger] self@[i]).len(),
    {
        9
    }

    /// Row `i`.
    pub fn row(&self, i: usize) -> (r: [T; 9])
        requires
            i < self@.len(),
        ensures
            r@ == self@[i as int],
    {
        self.rows[i]
    }

    /// The entry in row `i` and column `j`.
    pub fn get(&self, i: usize, j: usize) -> (e: T)
        requires
            i < self@.len(),
            j < 9,
        ensures
            e == self@[i as int][j as int],
    {
        self.rows[i][j]
    }
}

/// The blocks that a list of correspondences stands for, in the list's order.
pub open spec fn restrictions_of<T, C: WithRestriction<T>>(correspondences: Seq<C>) -> Seq<
    Seq<Seq<T>>,
> {
    Seq::new(correspondences.len(), |i: int| correspondences[i].restriction())
}

/// A row of nine zeros.
pub open spec fn zero_row<T: Scalar>() -> Seq<T> {
    Seq::new(9, |j: int| T::zero_value())
}

/// The number of rows of the system of `n` correspondences: two for each,
/// and never fewer than nine.
pub open spec fn design_rows(n: nat) -> nat {
    if 2 * n >= 9 {
        2 * n
    } else {
        9
    }
}

/// The blocks laid one under the other, rows `2i` and `2i + 1` being the two
/// rows of block `i`, followed by rows of zeros where there are fewer than
/// nine rows.
pub open spec fn padded<T: Scalar>(blocks: Seq<Seq<Seq<T>>>) -> Seq<Seq<T>> {
    Seq::new(
        design_rows(blocks.len()),
        |k: int|
            if k < 2 * blocks.len() {
                blocks[k / 2][k % 2]
            } else {
                zero_row::<T>()
            },
    )
}

/// The blocks of a list, each as its two rows.
pub open spec fn blocks_of<T>(restrictions: Seq<Matrix2x9<T>>) -> Seq<Seq<Seq<T>>> {
    Seq::new(restrictions.len(), |i: int| restrictions[i]@)
}

/// Stacks the blocks, in the order given, into the system to solve. With
/// fewer than five blocks the system is filled up with zero rows to nine
/// rows.
pub fn assemble<T: Scalar>(restrictions: &Vec<Matrix2x9<T>>) -> (matrix: DesignMatrix<T>)
    ensures
        matrix@ == padded(blocks_of(restrictions@)),
        matrix@.len() == design_rows(restrictions@.len()),
        forall|k: int| 0 <= k < matrix@.len() ==> (#[trigger] matrix@[k]).len() == 9,
        forall|i: int|
            #![trigger restrictions@[i]]
            0 <= i < restrictions@.len() ==> matrix@[2 * i] == restrictions@[i]@[0] && matrix@[2 * i
                + 1] == restrictions@[i]@[1],
{
    let ghost blocks = blocks_of(restrictions@);
    let mut rows: Vec<[T; 9]> = Vec::new();
    let mut i: usize = 0;
    while i < restrictions.len()
        invariant
            i <= restrictions@.len(),
            blocks == blocks_of(restrictions@),
            rows@.len() == 2 * i,
            forall|k: int| 0 <= k < 2 * i ==> (#[trigger] rows@[k])@ == blocks[k / 2][k % 2],
        decreases restrictions@.len() - i,
    {
        rows.push(restrictions[i].row(0));
        rows.push(restrictions[i].row(1));
        i += 1;
    }
    while rows.len() < 9
        invariant
            blocks.len() == restrictions@.len(),
            rows@.len() >= 2 * blocks.len(),
            rows@.len() <= design_rows(blocks.len()),
            forall|k: int|
                0 <= k < 2 * blocks.len() ==> (#[trigger] rows@[k])@ == blocks[k / 2][k % 2],
            forall|k: int|
                2 * blocks.len() <= k < rows@.len() ==> (#[trigger] rows@[k])@ == zero_row::<T>(),
        decreases 9 - rows.len(),
    {
        let zeros = [T::zero(); 9];
        assert(zeros@ =~= zero_row::<T>());
        rows.push(zeros);
    }
    let matrix = DesignMatrix { rows };
    assert(matrix@ =~= padded(blocks));
    proof {
        assert forall|i: int|
            #![trigger restrictions@[i]]
            0 <= i < restrictions@.len() implies matrix@[2 * i] == restrictions@[i]@[0] && matrix@[2
            * i + 1] == restrictions@[i]@[1] by {
            padded_keeps_order(blocks, i);
        }
    }
    matrix
}

/// Generates the block of each correspondence and stacks the blocks, in the
/// order given, into the system to solve. With fewer than five
/// correspondences the system is filled up with zero rows to nine rows.
pub fn generate_matrix_from_correspondences<T: Scalar, C: WithRestriction<T>>(
    correspondences: Vec<C>,
) -> (matrix: DesignMatrix<T>)
    ensures
        matrix@ == padded(restrictions_of(correspondences@)),
        matrix@.len() == design_rows(correspondences@.len()),
        forall|k: int| 0 <= k < matrix@.len() ==> (#[trigger] matrix@[k]).len() == 9,
        forall|i: int|
            #![trigger correspondences@[i]]
            0 <= i < correspondences@.len() ==> matrix@[2 * i]
                == correspondences@[i].restriction()[0] && matrix@[2 * i + 1]
                == correspondences@[i].restriction()[1],
{
    let mut matrixes: Vec<Matrix2x9<T>> = Vec::new();
    let mut i: usize = 0;
    while i < correspondences.len()
        invariant
            i <= correspondences@.len(),
            matrixes@.len() == i,
            forall|k: int|
                0 <= k < i ==> (#[trigger] matrixes@[k])@ == correspondences@[k].restriction(),
        decreases correspondences@.len() - i,
    {
        matrixes.push(correspondences[i].generate_restriction());
        i += 1;
    }
    let ghost blocks = restrictions_of(correspondences@);
    assert(blocks_of(matrixes@) =~= blocks);
    let matrix = assemble(&matrixes);
    proof {
        assert forall|i: int|
            #![trigger correspondences@[i]]
            0 <= i < correspondences@.len() implies matrix@[2 * i]
                == correspondences@[i].restriction()[0] && matrix@[2 * i + 1]
                == correspondences@[i].restriction()[1] by {
            padded_keeps_order(blocks, i);
        }
    }
    matrix
}

/// The rows follow the order of the blocks: block `i` stands in rows `2i`
/// and `2i + 1`, whether or not the system was filled up.
pub proof fn padded_keeps_order<T: Scalar>(blocks: Seq<Seq<Seq<T>>>, i: int)
    requires
        0 <= i < blocks.len(),
    ensures
        padded(blocks)[2 * i] == blocks[i][0],
        padded(blocks)[2 * i + 1] == blocks[i][1],
{
}

/// The system of `n` blocks has `max(2n, 9)` rows, and every row after the
/// blocks is a row of zeros.
pub proof fn padded_shape<T: Scalar>(blocks: Seq<Seq<Seq<T>>>)
    ensures
        padded(blocks).len() == design_rows(blocks.len()),
        padded(blocks).len() >= 9,
        padded(blocks).len() >= 2 * blocks.len(),
        padded(blocks).len() == 9 || padded(blocks).len() == 2 * blocks.len(),
        forall|k: int|
            2 * blocks.len() <= k < padded(blocks).len() ==> #[trigger] padded(blocks)[k]
                == zero_row::<T>(),
{
}

/// With four correspondences or fewer the system has exactly nine rows;
/// from five on, it has two for each and is not filled up.
pub proof fn design_rows_of_few(n: nat)
    ensures
        n <= 4 ==> design_rows(n) == 9,
        n >= 5 ==> design_rows(n) == 2 * n,
{
}

/// A 3x3 matrix, row by row.
pub struct Matrix3<T> {
    pub rows: [[T; 3]; 3],
}

impl<T> View for Matrix3<T> {
    type V = Seq<Seq<T>>;

    open spec fn view(&self) -> Seq<Seq<T>> {
        seq![self.rows@[0]@, self.rows@[1]@, self.rows@[2]@]
    }
}

impl<T: Copy> Matrix3<T> {
    pub fn nrows(&self) -> (n: usize)
        ensures
            n == 3,
            n == self@.len(),
    {
        3
    }

    pub fn ncols(&self) -> (n: usize)
        ensures
            n == 3,
            forall|i: int| 0 <= i < 3 ==> n == (#[trigger] self@[i]).len(),
    {
        3
    }

    /// The entry in row `i` and column `j`.
    pub fn get(&self, i: usize, j: usize) -> (e: T)
        requires
            i < 3,
            j < 3,
        ensures
            e == self@[i as int][j as int],
    {
        self.rows[i][j]
    }
}

/// An estimated homography, determined up to a common factor of its entries,
/// and the singular value it belongs to: the nearer to zero, the better the
/// correspondences agree with it.
pub struct HomographySolution<T> {
    pub matrix: Matrix3<T>,
    pub value: T,
}

impl<T> View for HomographySolution<T> {
    type V = (Seq<Seq<T>>, T);

    /// The matrix as its three rows, and the value.
    open spec fn view(&self) -> (Seq<Seq<T>>, T) {
        (self.matrix@, self.value)
    }
}

/// What a singular value decomposition of a system with nine columns yields:
/// the right singular vectors as the rows of `V^T`, and one singular value for
/// each, in the routine's order. A system of `m` rows has `min(m, 9)` of them.
pub struct Decomposition<T> {
    v_t: Vec<[T; 9]>,
    singular_values: Vec<T>,
}

/// Nine coefficients as a 3x3 matrix, row by row.
pub open spec fn reshaped<T>(h: Seq<T>) -> Seq<Seq<T>> {
    seq![seq![h[0], h[1], h[2]], seq![h[3], h[4], h[5]], seq![h[6], h[7], h[8]]]
}

impl<T> Decomposition<T> {
    #[verifier::type_invariant]
    closed spec fn well_formed(&self) -> bool {
        &&& 1 <= self.v_t@.len() <= 9
        &&& self.singular_values@.len() == self.v_t@.len()
    }

    /// The rows of `V^T`.
    pub closed spec fn right_vectors(&self) -> Seq<Seq<T>> {
        Seq::new(self.v_t@.len(), |i: int| self.v_t@[i]@)
    }

    /// The singular values, one for each row of `V^T`.
    pub closed spec fn values(&self) -> Seq<T> {
        self.singular_values@
    }

    /// Whether `count` vectors with `values` singular values make up a
    /// decomposition: as many values as vectors, at least one and at most nine.
    pub open spec fn admits(count: nat, values: nat) -> bool {
        1 <= count <= 9 && values == count
    }

    /// The homography that this decomposition singles out: the last right
    /// singular vector, taken as a matrix row by row, with the last singular
    /// value.
    pub open spec fn solution(&self) -> (Seq<Seq<T>>, T) {
        (reshaped(self.right_vectors().last()), self.values().last())
    }

    /// Takes the rows of `V^T` and the singular values. `None` where their
    /// numbers differ, where there is none, or where there are more than nine.
    pub fn new(v_t: Vec<[T; 9]>, singular_values: Vec<T>) -> (d: Option<Self>)
        ensures
            d.is_some() <==> Self::admits(v_t@.len(), singular_values@.len()),
            d.is_some() ==> d.unwrap().right_vectors() == Seq::new(
                v_t@.len(),
                |i: int| v_t@[i]@,
            ),
            d.is_some() ==> d.unwrap().values() == singular_values@,
    {
        if v_t.len() >= 1 && v_t.len() <= 9 && singular_values.len() == v_t.len() {
            Some(Decomposition { v_t, singular_values })
        } else {
            None
        }
    }

    /// The number of right singular vectors, which is also the number of
    /// singular values.
    pub fn len(&self) -> (n: usize)
        ensures
            n == self.right_vectors().len(),
            n == self.values().len(),
            1 <= n <= 9,
    {
        proof {
            use_type_invariant(self);
        }
        self.v_t.len()
    }

}

impl<T: Copy> Decomposition<T> {
    /// Row `i` of `V^T`.
    pub fn right_vector(&self, i: usize) -> (v: [T; 9])
        requires
            i < self.right_vectors().len(),
        ensures
            v@ == self.right_vectors()[i as int],
    {
        self.v_t[i]
    }

    /// Singular value `i`.
    pub fn singular_value(&self, i: usize) -> (s: T)
        requires
            i < self.values().len(),
        ensures
            s == self.values()[i as int],
    {
        self.singular_values[i]
    }

    /// Reads the homography off the decomposition.
    pub fn homography(&self) -> (r: HomographySolution<T>)
        ensures
            r@ == self.solution(),
    {
        let n = self.len() - 1;
        let h = self.right_vector(n);
        let matrix = Matrix3 { rows: [[h[0], h[1], h[2]], [h[3], h[4], h[5]], [h[6], h[7], h[8]]] };
        assert(matrix@ =~~= reshaped(h@));
        HomographySolution { matrix, value: self.singular_value(n) }
    }
}

/// Solves the system: `decompose` computes the singular value decomposition
/// of `matrix`, and the homography is read off its last right singular vector.
/// The result is whatever [`Decomposition::solution`] is for the
/// decomposition that `decompose` returned.
pub fn solve<T: Copy, F: FnOnce(DesignMatrix<T>) -> Decomposition<T>>(
    matrix: DesignMatrix<T>,
    decompose: F,
) -> (r: HomographySolution<T>)
    requires
        decompose.requires((matrix,)),
    ensures
        exists|d: Decomposition<T>| #[trigger] decompose.ensures((matrix,), d) && r@ == d.solution(),
{
    let d = decompose(matrix);
    d.homography()
}

} // verus!
