//! Points and lines of a plane.
use vstd::prelude::*;
use crate::interface::Vectorizable;
use crate::scalar::Scalar;

verus! {

/// A point `(x, y)`.
pub struct Point<T> {
    pub x: T,
    pub y: T,
}

/// The line `a*x + b*y + c = 0`.
pub struct Line<T> {
    pub a: T,
    pub b: T,
    pub c: T,
}

impl<T> Point<T> {
    pub fn new(x: T, y: T) -> (p: Self)
        ensures
            p.x == x,
            p.y == y,
    {
        Point { x, y }
    }
}

impl<T: Scalar> Line<T> {
    pub fn new(a: T, b: T, c: T) -> (l: Self)
        ensures
            l.a == a,
            l.b == b,
            l.c == c,
    {
        Line { a, b, c }
    }

    /// The coefficients of the line through `p1` and `p2`:
    /// `a = y2 - y1`, `b = x1 - x2`, `c = (-a)*x1 - b*y1`.
    pub open spec fn through(p1: Point<T>, p2: Point<T>) -> Line<T> {
        let a = p2.y.difference(p1.y);
        let b = p1.x.difference(p2.x);
        Line { a, b, c: a.negation().product(p1.x).difference(b.product(p1.y)) }
    }

    /// The line through two points. Nothing is checked: two equal points
    /// give the line with `a` and `b` both zero.
    pub fn from_points(p1: &Point<T>, p2: &Point<T>) -> (l: Line<T>)
        ensures
            l == Self::through(*p1, *p2),
    {
        let a = p2.y.minus(p1.y);
        let b = p1.x.minus(p2.x);
        let c = a.negate().times(p1.x).minus(b.times(p1.y));
        Line { a, b, c }
    }
}

impl<T: Copy> Vectorizable<T> for Line<T> {
    open spec fn coordinates(&self) -> Seq<T> {
        seq![self.a, self.b, self.c]
    }

    fn to_vector(&self) -> (v: Vec<T>) {
        let mut v = Vec::new();
        v.push(self.a);
        v.push(self.b);
        v.push(self.c);
        assert(v@ =~= self.coordinates());
        v
    }
}

impl<T: Copy> Vectorizable<T> for Point<T> {
    open spec fn coordinates(&self) -> Seq<T> {
        seq![self.x, self.y]
    }

    fn to_vector(&self) -> (v: Vec<T>) {
        let mut v = Vec::new();
        v.push(self.x);
        v.push(self.y);
        assert(v@ =~= self.coordinates());
        v
    }
}

} // verus!
