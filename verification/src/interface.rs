//! What a correspondence has to offer to take part in an estimation.
use vstd::prelude::*;

verus! {

/// The constraint block of one correspondence: two equations over the nine
/// homography coefficients, taken row by row (`h11, h12, h13, h21, ..., h33`).
pub struct Matrix2x9<T> {
    pub rows: [[T; 9]; 2],
}

impl<T> View for Matrix2x9<T> {
    type V = Seq<Seq<T>>;

    /// The two rows, each as its nine entries.
    open spec fn view(&self) -> Seq<Seq<T>> {
        seq![self.rows@[0]@, self.rows@[1]@]
    }
}

impl<T: Copy> Matrix2x9<T> {
    /// The block whose rows are `first` and `second`.
    pub fn from_rows(first: [T; 9], second: [T; 9]) -> (m: Self)
        ensures
            m@ == seq![first@, second@],
    {
        Matrix2x9 { rows: [first, second] }
    }

    /// Row `i` of the block.
    pub fn row(&self, i: usize) -> (r: [T; 9])
        requires
            i < 2,
        ensures
            r@ == self@[i as int],
    {
        self.rows[i]
    }

    /// The entry in row `i` and column `j`.
    pub fn get(&self, i: usize, j: usize) -> (e: T)
        requires
            i < 2,
            j < 9,
        ensures
            e == self@[i as int][j as int],
    {
        self.rows[i][j]
    }

    pub fn nrows(&self) -> (n: usize)
        ensures
            n == 2,
            n == self@.len(),
    {
        2
    }

    pub fn ncols(&self) -> (n: usize)
        ensures
            n == 9,
            forall|i: int| 0 <= i < 2 ==> n == (#[trigger] self@[i]).len(),
    {
        9
    }
}

/// Anything that can be laid out as a vector of coordinates.
pub trait Vectorizable<T> {
    /// The coordinates, in order.
    spec fn coordinates(&self) -> Seq<T>;

    fn to_vector(&self) -> (v: Vec<T>)
        ensures
            v@ == self.coordinates(),
    ;
}

/// Anything that constrains the homography by one 2x9 block.
pub trait WithRestriction<T> {
    /// The block this correspondence stands for.
    spec fn restriction(&self) -> Seq<Seq<T>>;

    fn generate_restriction(&self) -> (r: Matrix2x9<T>)
        ensures
            r@ == self.restriction(),
    ;
}

/// A block is a function of its correspondence alone: whatever two runs of
/// the generator return for one correspondence is the same block, entry for
/// entry.
pub proof fn restriction_is_repeatable<T, C: WithRestriction<T>>(
    correspondence: C,
    first: Matrix2x9<T>,
    second: Matrix2x9<T>,
)
    requires
        first@ == correspondence.restriction(),
        second@ == correspondence.restriction(),
    ensures
        first@ == second@,
        forall|i: int, j: int|
            0 <= i < 2 && 0 <= j < 9 ==> first.rows[i][j] == second.rows[i][j],
{
    assert forall|i: int, j: int| 0 <= i < 2 && 0 <= j < 9 implies first.rows[i][j]
        == second.rows[i][j] by {
        assert(first@[i][j] == second@[i][j]);
    }
}

} // verus!
