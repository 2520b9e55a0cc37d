//! Correspondences, and the constraint each one puts on the homography.
//!
//! A homography `H` that carries the first member of a pair onto the second
//! satisfies two linear equations in its nine coefficients. The two rows of a
//! block hold the coefficients of these equations, with the columns in the
//! order `h11, h12, h13, h21, h22, h23, h31, h32, h33`.
use vstd::prelude::*;
use crate::geo::{Line, Point};
use crate::interface::{Matrix2x9, WithRestriction};
use crate::scalar::Scalar;

verus! {

/// A point of the source plane and the point it is carried to.
pub struct PointPair<T> {
    pub p1: Point<T>,
    pub p2: Point<T>,
}

/// A line of the source plane and the line it is carried to.
pub struct LinePair<T> {
    pub l1: Line<T>,
    pub l2: Line<T>,
}

/// A correspondence of either kind, for lists that hold both.
pub enum Correspondence<T> {
    Points(PointPair<T>),
    Lines(LinePair<T>),
}

/// The block of the points `(x, y)` and `(x', y')`, which states
/// `p2 x (H p1) = 0`:
///
/// ```text
/// 0  0  0  -x  -y  -1   x*y'     y*y'     y'
/// x  y  1   0   0   0  (-x)*x'  (-y)*x'  -x'
/// ```
pub open spec fn point_restriction<T: Scalar>(p1: Point<T>, p2: Point<T>) -> Seq<Seq<T>> {
    let zero = T::zero_value();
    let one = T::one_value();
    seq![
        seq![
            zero,
            zero,
            zero,
            p1.x.negation(),
            p1.y.negation(),
            one.negation(),
            p1.x.product(p2.y),
            p1.y.product(p2.y),
            p2.y,
        ],
        seq![
            p1.x,
            p1.y,
            one,
            zero,
            zero,
            zero,
            p1.x.negation().product(p2.x),
            p1.y.negation().product(p2.x),
            p2.x.negation(),
        ],
    ]
}

/// The block of the lines `(a, b, c)` and `(a', b', c')`, which states
/// `l1 x (H^T l2) = 0`:
///
/// ```text
///  0     (-c)*a'   b*a'     0     (-c)*b'   b*b'     0     (-c)*c'   b*c'
///  c*a'   0       (-a)*a'   c*b'   0       (-a)*b'   c*c'   0       (-a)*c'
/// ```
pub open spec fn line_restriction<T: Scalar>(l1: Line<T>, l2: Line<T>) -> Seq<Seq<T>> {
    let zero = T::zero_value();
    seq![
        seq![
            zero,
            l1.c.negation().product(l2.a),
            l1.b.product(l2.a),
            zero,
            l1.c.negation().product(l2.b),
            l1.b.product(l2.b),
            zero,
            l1.c.negation().product(l2.c),
            l1.b.product(l2.c),
        ],
        seq![
            l1.c.product(l2.a),
            zero,
            l1.a.negation().product(l2.a),
            l1.c.product(l2.b),
            zero,
            l1.a.negation().product(l2.b),
            l1.c.product(l2.c),
            zero,
            l1.a.negation().product(l2.c),
        ],
    ]
}

impl<T: Scalar> WithRestriction<T> for PointPair<T> {
    open spec fn restriction(&self) -> Seq<Seq<T>> {
        point_restriction(self.p1, self.p2)
    }

    fn generate_restriction(&self) -> (r: Matrix2x9<T>) {
        let p1 = &self.p1;
        let p2 = &self.p2;

        let first_row = [
            T::zero(),
            T::zero(),
            T::zero(),
            p1.x.negate(),
            p1.y.negate(),
            T::one().negate(),
            p1.x.times(p2.y),
            p1.y.times(p2.y),
            p2.y,
        ];

        let second_row = [
            p1.x,
            p1.y,
            T::one(),
            T::zero(),
            T::zero(),
            T::zero(),
            p1.x.negate().times(p2.x),
            p1.y.negate().times(p2.x),
            p2.x.negate(),
        ];

        let r = Matrix2x9::from_rows(first_row, second_row);
        assert(r@ =~~= self.restriction());
        r
    }
}

impl<T: Scalar> WithRestriction<T> for LinePair<T> {
    open spec fn restriction(&self) -> Seq<Seq<T>> {
        line_restriction(self.l1, self.l2)
    }

    fn generate_restriction(&self) -> (r: Matrix2x9<T>) {
        let l1 = &self.l1;
        let l2 = &self.l2;

        let first_row = [
            T::zero(),
            l1.c.negate().times(l2.a),
            l1.b.times(l2.a),
            T::zero(),
            l1.c.negate().times(l2.b),
            l1.b.times(l2.b),
            T::zero(),
            l1.c.negate().times(l2.c),
            l1.b.times(l2.c),
        ];

        let second_row = [
            l1.c.times(l2.a),
            T::zero(),
            l1.a.negate().times(l2.a),
            l1.c.times(l2.b),
            T::zero(),
            l1.a.negate().times(l2.b),
            l1.c.times(l2.c),
            T::zero(),
            l1.a.negate().times(l2.c),
        ];

        let r = Matrix2x9::from_rows(first_row, second_row);
        assert(r@ =~~= self.restriction());
        r
    }
}

impl<T: Scalar> WithRestriction<T> for Correspondence<T> {
    open spec fn restriction(&self) -> Seq<Seq<T>> {
        match *self {
            Correspondence::Points(pair) => pair.restriction(),
            Correspondence::Lines(pair) => pair.restriction(),
        }
    }

    fn generate_restriction(&self) -> (r: Matrix2x9<T>) {
        match self {
            Correspondence::Points(pair) => pair.generate_restriction(),
            Correspondence::Lines(pair) => pair.generate_restriction(),
        }
    }
}

/// Every block has two rows of nine entries.
pub proof fn restriction_shape<T: Scalar>(points: PointPair<T>, lines: LinePair<T>)
    ensures
        points.restriction().len() == 2,
        points.restriction()[0].len() == 9,
        points.restriction()[1].len() == 9,
        lines.restriction().len() == 2,
        lines.restriction()[0].len() == 9,
        lines.restriction()[1].len() == 9,
{
}

/// The source point stands in its block unchanged: the first row holds
/// `(-x, -y, -1)` in columns 3 to 5, the second `(x, y, 1)` in columns 0 to 2,
/// whatever the target point is.
pub proof fn point_restriction_holds_source<T: Scalar>(pair: PointPair<T>)
    ensures
        pair.restriction()[0][3] == pair.p1.x.negation(),
        pair.restriction()[0][4] == pair.p1.y.negation(),
        pair.restriction()[0][5] == T::one_value().negation(),
        pair.restriction()[1][0] == pair.p1.x,
        pair.restriction()[1][1] == pair.p1.y,
        pair.restriction()[1][2] == T::one_value(),
{
}

} // verus!
