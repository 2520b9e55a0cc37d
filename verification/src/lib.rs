//! Planar homography estimation from corresponding points and lines.
//!
//! A homography is the 3x3 matrix, determined up to a common factor, that
//! carries one plane onto another. Each pair of corresponding points or lines
//! puts two linear equations on its nine coefficients. A
//! [`HomographyComputation`] collects the pairs, [`HomographyRestrictions`]
//! holds their equations, and [`HomographyRestrictions::compute`] stacks them
//! and reads the homography off a singular value decomposition of the stack.
use vstd::prelude::*;
use crate::functions::{
    assemble, blocks_of, padded, solve, Decomposition, DesignMatrix, HomographySolution,
};
use crate::geo::{Line, Point};
use crate::interface::{Matrix2x9, WithRestriction};
use crate::pairs::{LinePair, PointPair};
use crate::scalar::Scalar;

pub mod exact;
pub mod functions;
pub mod geo;
pub mod interface;
pub mod pairs;
pub mod scalar;

verus! {

/// The constraint blocks of a computation, in the order in which they enter
/// the system.
pub struct HomographyRestrictions<T> {
    restrictions: Vec<Matrix2x9<T>>,
}

/// The correspondences between two planes from which the homography is to be
/// found.
pub struct HomographyComputation<T> {
    point_correspondences: Vec<PointPair<T>>,
    line_correspondences: Vec<LinePair<T>>,
}

impl<T> View for HomographyRestrictions<T> {
    type V = Seq<Seq<Seq<T>>>;

    /// The blocks, each as its two rows.
    closed spec fn view(&self) -> Seq<Seq<Seq<T>>> {
        Seq::new(self.restrictions@.len(), |i: int| self.restrictions@[i]@)
    }
}

impl<T> HomographyComputation<T> {
    /// The point pairs added so far, oldest first.
    pub closed spec fn points(&self) -> Seq<PointPair<T>> {
        self.point_correspondences@
    }

    /// The line pairs added so far, oldest first.
    pub closed spec fn lines(&self) -> Seq<LinePair<T>> {
        self.line_correspondences@
    }

    /// A computation without correspondences.
    pub fn new() -> (hc: Self)
        ensures
            hc.points() == Seq::<PointPair<T>>::empty(),
            hc.lines() == Seq::<LinePair<T>>::empty(),
    {
        HomographyComputation { point_correspondences: Vec::new(), line_correspondences: Vec::new() }
    }

    /// Adds the correspondence of `p1` in the source plane with `p2` in the
    /// target plane.
    pub fn add_point_correspondence(&mut self, p1: Point<T>, p2: Point<T>)
        ensures
            final(self).points() == old(self).points().push(PointPair { p1, p2 }),
            final(self).lines() == old(self).lines(),
    {
        self.point_correspondences.push(PointPair { p1, p2 });
    }

    /// Adds the correspondence of `l1` in the source plane with `l2` in the
    /// target plane.
    pub fn add_line_correspondence(&mut self, l1: Line<T>, l2: Line<T>)
        ensures
            final(self).lines() == old(self).lines().push(LinePair { l1, l2 }),
            final(self).points() == old(self).points(),
    {
        self.line_correspondences.push(LinePair { l1, l2 });
    }

    /// The point pairs added so far, oldest first.
    pub fn point_correspondences(&self) -> (pairs: &Vec<PointPair<T>>)
        ensures
            pairs@ == self.points(),
    {
        &self.point_correspondences
    }

    /// The line pairs added so far, oldest first.
    pub fn line_correspondences(&self) -> (pairs: &Vec<LinePair<T>>)
        ensures
            pairs@ == self.lines(),
    {
        &self.line_correspondences
    }
}

/// The blocks of `points`, then those of `lines`, each group in its own
/// order.
pub open spec fn restrictions_in_order<T: Scalar>(
    points: Seq<PointPair<T>>,
    lines: Seq<LinePair<T>>,
) -> Seq<Seq<Seq<T>>> {
    Seq::new(
        points.len() + lines.len(),
        |i: int|
            if i < points.len() {
                points[i].restriction()
            } else {
                lines[i - points.len()].restriction()
            },
    )
}

/// The blocks follow the order of insertion: the points come first, each at
/// its own index, and line `j` follows at index `points.len() + j`. Every pair
/// gives exactly one block.
pub proof fn restrictions_in_order_places<T: Scalar>(
    points: Seq<PointPair<T>>,
    lines: Seq<LinePair<T>>,
)
    ensures
        restrictions_in_order(points, lines).len() == points.len() + lines.len(),
        forall|i: int|
            0 <= i < points.len() ==> restrictions_in_order(points, lines)[i]
                == (#[trigger] points[i]).restriction(),
        forall|j: int|
            0 <= j < lines.len() ==> restrictions_in_order(points, lines)[points.len() + j]
                == (#[trigger] lines[j]).restriction(),
{
}

impl<T: Scalar> HomographyComputation<T> {
    /// The constraint blocks of all correspondences: first those of the
    /// point pairs, then those of the line pairs, each group in the order in
    /// which its pairs were added.
    pub fn get_restrictions(&self) -> (r: HomographyRestrictions<T>)
        ensures
            r@ == restrictions_in_order(self.points(), self.lines()),
            r@.len() == self.points().len() + self.lines().len(),
    {
        let mut restrictions: Vec<Matrix2x9<T>> = Vec::new();
        let ghost expected = restrictions_in_order(self.points(), self.lines());

        let mut i: usize = 0;
        while i < self.point_correspondences.len()
            invariant
                i <= self.point_correspondences@.len(),
                expected == restrictions_in_order(self.points(), self.lines()),
                restrictions@.len() == i,
                forall|k: int| 0 <= k < i ==> (#[trigger] restrictions@[k])@ == expected[k],
            decreases self.point_correspondences@.len() - i,
        {
            restrictions.push(self.point_correspondences[i].generate_restriction());
            i += 1;
        }

        let ghost np = self.point_correspondences@.len();
        let mut j: usize = 0;
        while j < self.line_correspondences.len()
            invariant
                j <= self.line_correspondences@.len(),
                np == self.point_correspondences@.len(),
                expected == restrictions_in_order(self.points(), self.lines()),
                restrictions@.len() == np + j,
                forall|k: int| 0 <= k < np + j ==> (#[trigger] restrictions@[k])@ == expected[k],
            decreases self.line_correspondences@.len() - j,
        {
            restrictions.push(self.line_correspondences[j].generate_restriction());
            j += 1;
        }

        let r = HomographyRestrictions { restrictions };
        assert(r@ =~= expected);
        r
    }
}

impl<T: Scalar> HomographyRestrictions<T> {
    /// The number of blocks.
    pub fn len(&self) -> (n: usize)
        ensures
            n == self@.len(),
    {
        self.restrictions.len()
    }

    /// Block `i`.
    pub fn get(&self, i: usize) -> (m: Matrix2x9<T>)
        requires
            i < self@.len(),
        ensures
            m@ == self@[i as int],
    {
        Matrix2x9 { rows: self.restrictions[i].rows }
    }

    /// Assembles the system and solves it: the blocks are stacked in their
    /// order and filled up with zero rows to nine rows, `decompose` computes
    /// the singular value decomposition of that system, and the homography is
    /// read off its last right singular vector.
    pub fn compute<F: FnOnce(DesignMatrix<T>) -> Decomposition<T>>(&self, decompose: F) -> (r:
        HomographySolution<T>)
        requires
            forall|m: DesignMatrix<T>| m@ == padded(self@) ==> decompose.requires((m,)),
        ensures
            exists|m: DesignMatrix<T>, d: Decomposition<T>|
                m@ == padded(self@) && #[trigger] decompose.ensures((m,), d) && r@
                    == d.solution(),
    {
        assert(blocks_of(self.restrictions@) =~= self@);
        let matrix = assemble(&self.restrictions);
        solve(matrix, decompose)
    }
}

} // verus!
