//! What the blocks say about a homography, in exact integer arithmetic.
//!
//! Over the integers every entry of a block is the polynomial its formula
//! names, as long as no product leaves the machine range. The rows of a point
//! block, applied to the nine coefficients of a homography `H`, are then two
//! components of the cross product `p2 x (H p1)`, and those of a line block
//! two components of `l1 x (H^T l2)`: a row is satisfied exactly where the
//! homography carries the first member of the pair onto the second, up to a
//! factor. The system is homogeneous, so the multiples of a solution are
//! solutions too.
use vstd::prelude::*;
use crate::geo::{Line, Point};
use crate::pairs::{line_restriction, point_restriction};
use crate::scalar::Scalar;

verus! {

/// A row of the system applied to nine coefficients: the sum of the products
/// of the entries with the coefficients.
pub open spec fn residual(row: Seq<i64>, h: Seq<int>) -> int
    recommends
        row.len() == 9,
        h.len() == 9,
{
    row[0] * h[0] + row[1] * h[1] + row[2] * h[2] + row[3] * h[3] + row[4] * h[4] + row[5] * h[5]
        + row[6] * h[6] + row[7] * h[7] + row[8] * h[8]
}

/// Whether the coefficients satisfy every row of the system.
pub open spec fn satisfies(matrix: Seq<Seq<i64>>, h: Seq<int>) -> bool
    recommends
        h.len() == 9,
        forall|k: int| 0 <= k < matrix.len() ==> (#[trigger] matrix[k]).len() == 9,
{
    forall|k: int| 0 <= k < matrix.len() ==> residual(#[trigger] matrix[k], h) == 0
}

/// The coefficients, each multiplied by `s`.
pub open spec fn scaled(h: Seq<int>, s: int) -> Seq<int>
    recommends
        h.len() == 9,
{
    Seq::new(9, |j: int| s * h[j])
}

/// `H (x, y, 1)`, for the homography with the coefficients `h` row by row.
pub open spec fn image(h: Seq<int>, x: int, y: int) -> (int, int, int)
    recommends
        h.len() == 9,
{
    (h[0] * x + h[1] * y + h[2], h[3] * x + h[4] * y + h[5], h[6] * x + h[7] * y + h[8])
}

/// `H^T (a, b, c)`, for the homography with the coefficients `h` row by row.
pub open spec fn pulled_back(h: Seq<int>, a: int, b: int, c: int) -> (int, int, int)
    recommends
        h.len() == 9,
{
    (h[0] * a + h[3] * b + h[6] * c, h[1] * a + h[4] * b + h[7] * c, h[2] * a + h[5] * b + h[8] * c)
}

/// A magnitude whose products with another such magnitude stay in range.
pub open spec fn small(v: i64) -> bool {
    -0x8000_0000 <= v <= 0x8000_0000
}

/// Products of small numbers do not wrap around.
proof fn product_of_small(a: i64, b: i64)
    requires
        small(a),
        small(b),
    ensures
        a.product(b) == a * b,
        a.negation().product(b) == -(a * b),
{
    assert(-0x4000_0000_0000_0000 <= a * b <= 0x4000_0000_0000_0000) by (nonlinear_arith)
        requires
            -0x8000_0000 <= a <= 0x8000_0000,
            -0x8000_0000 <= b <= 0x8000_0000,
    ;
    assert((-a) * b == -(a * b)) by (nonlinear_arith);
}

/// `k*(p + q + r) - l*(t + u + v)`, multiplied out.
proof fn difference_of_combinations(k: int, p: int, q: int, r: int, l: int, t: int, u: int, v: int)
    ensures
        k * (p + q + r) - l * (t + u + v) == k * p + k * q + k * r - l * t - l * u - l * v,
{
    assert(k * (p + q + r) == k * p + k * q + k * r) by (nonlinear_arith);
    assert(l * (t + u + v) == l * t + l * u + l * v) by (nonlinear_arith);
}

/// `(a*b)*c` is `a*(c*b)` and `b*(c*a)`, and the same with the sign turned.
proof fn product_regrouped(a: int, b: int, c: int)
    ensures
        (a * b) * c == a * (c * b),
        (a * b) * c == b * (c * a),
        (-(a * b)) * c == -(a * (c * b)),
        (-(a * b)) * c == -(b * (c * a)),
{
    assert((a * b) * c == a * (c * b)) by (nonlinear_arith);
    assert((a * b) * c == b * (c * a)) by (nonlinear_arith);
    assert((-(a * b)) * c == -((a * b) * c)) by (nonlinear_arith);
}

/// A row applied to scaled coefficients is the scaled residual.
pub proof fn residual_scales(row: Seq<i64>, h: Seq<int>, s: int)
    requires
        row.len() == 9,
        h.len() == 9,
    ensures
        residual(row, scaled(h, s)) == s * residual(row, h),
{
    let t = scaled(h, s);
    assert forall|j: int| 0 <= j < 9 implies row[j] * #[trigger] t[j] == s * (row[j] * h[j]) by {
        let r = row[j] as int;
        let v = h[j];
        assert(r * (s * v) == s * (r * v)) by (nonlinear_arith);
    }
    let a0 = row[0] * h[0];
    let a1 = row[1] * h[1];
    let a2 = row[2] * h[2];
    let a3 = row[3] * h[3];
    let a4 = row[4] * h[4];
    let a5 = row[5] * h[5];
    let a6 = row[6] * h[6];
    let a7 = row[7] * h[7];
    let a8 = row[8] * h[8];
    assert(row[0] * t[0] == s * a0);
    assert(row[1] * t[1] == s * a1);
    assert(row[2] * t[2] == s * a2);
    assert(row[3] * t[3] == s * a3);
    assert(row[4] * t[4] == s * a4);
    assert(row[5] * t[5] == s * a5);
    assert(row[6] * t[6] == s * a6);
    assert(row[7] * t[7] == s * a7);
    assert(row[8] * t[8] == s * a8);
    assert(s * a0 + s * a1 + s * a2 + s * a3 + s * a4 + s * a5 + s * a6 + s * a7 + s * a8 == s * (
    a0 + a1 + a2 + a3 + a4 + a5 + a6 + a7 + a8)) by (nonlinear_arith);
}

/// A homography is determined up to a factor: multiplied by any number but
/// zero, coefficients satisfy a system exactly where they did before.
pub proof fn scaling_keeps_solutions(matrix: Seq<Seq<i64>>, h: Seq<int>, s: int)
    requires
        h.len() == 9,
        forall|k: int| 0 <= k < matrix.len() ==> (#[trigger] matrix[k]).len() == 9,
        s != 0,
    ensures
        satisfies(matrix, scaled(h, s)) <==> satisfies(matrix, h),
{
    assert forall|k: int| 0 <= k < matrix.len() implies (residual(#[trigger] matrix[k], scaled(h, s))
        == 0 <==> residual(matrix[k], h) == 0) by {
        residual_scales(matrix[k], h, s);
        let r = residual(matrix[k], h);
        assert(s * r == 0 <==> r == 0) by (nonlinear_arith)
            requires
                s != 0,
        ;
    }
}

/// The rows of the block of the points `p1 = (x, y)` and `p2 = (x', y')`,
/// applied to a homography that takes `p1` to `(u, v, w)`, are `y'*w - v` and
/// `u - x'*w`: both vanish exactly where `(u, v) = (x'*w, y'*w)`, that is
/// where the homography carries `p1` onto `p2`.
pub proof fn point_restriction_meaning(p1: Point<i64>, p2: Point<i64>, h: Seq<int>)
    requires
        h.len() == 9,
        small(p1.x),
        small(p1.y),
        small(p2.x),
        small(p2.y),
    ensures
        residual(point_restriction(p1, p2)[0], h) == p2.y * image(h, p1.x as int, p1.y as int).2
            - image(h, p1.x as int, p1.y as int).1,
        residual(point_restriction(p1, p2)[1], h) == image(h, p1.x as int, p1.y as int).0 - p2.x
            * image(h, p1.x as int, p1.y as int).2,
        (residual(point_restriction(p1, p2)[0], h) == 0 && residual(
            point_restriction(p1, p2)[1],
            h,
        ) == 0) <==> (image(h, p1.x as int, p1.y as int).0 == p2.x * image(
            h,
            p1.x as int,
            p1.y as int,
        ).2 && image(h, p1.x as int, p1.y as int).1 == p2.y * image(
            h,
            p1.x as int,
            p1.y as int,
        ).2),
{
    let x = p1.x as int;
    let y = p1.y as int;
    let xp = p2.x as int;
    let yp = p2.y as int;
    product_of_small(p1.x, p2.y);
    product_of_small(p1.y, p2.y);
    product_of_small(p1.x, p2.x);
    product_of_small(p1.y, p2.x);
    let r0 = point_restriction(p1, p2)[0];
    let r1 = point_restriction(p1, p2)[1];
    assert(r0[0] == 0 && r0[1] == 0 && r0[2] == 0);
    assert(r0[3] == -x && r0[4] == -y && r0[5] == -1);
    assert(r0[6] == x * yp && r0[7] == y * yp && r0[8] == yp);
    assert(r1[0] == x && r1[1] == y && r1[2] == 1);
    assert(r1[3] == 0 && r1[4] == 0 && r1[5] == 0);
    assert(r1[6] == -(x * xp) && r1[7] == -(y * xp) && r1[8] == -xp);
    let (h0, h1, h2, h3, h4, h5, h6, h7, h8) = (
        h[0],
        h[1],
        h[2],
        h[3],
        h[4],
        h[5],
        h[6],
        h[7],
        h[8],
    );
    let (u, v, w) = image(h, x, y);
    // first row: y'*w - v
    product_regrouped(x, yp, h6);
    product_regrouped(y, yp, h7);
    assert((-x) * h3 == -(h3 * x)) by (nonlinear_arith);
    assert((-y) * h4 == -(h4 * y)) by (nonlinear_arith);
    difference_of_combinations(yp, h6 * x, h7 * y, h8, 1, h3 * x, h4 * y, h5);
    assert(residual(r0, h) == yp * w - v);
    // second row: u - x'*w
    product_regrouped(x, xp, h6);
    product_regrouped(y, xp, h7);
    assert(x * h0 == h0 * x) by (nonlinear_arith);
    assert(y * h1 == h1 * y) by (nonlinear_arith);
    assert((-xp) * h8 == -(xp * h8)) by (nonlinear_arith);
    difference_of_combinations(1, h0 * x, h1 * y, h2, xp, h6 * x, h7 * y, h8);
    assert(residual(r1, h) == u - xp * w);
}

/// The rows of the block of the lines `l1 = (a, b, c)` and `l2`, applied to
/// a homography whose transpose takes `l2` to `(m1, m2, m3)`, are
/// `b*m3 - c*m2` and `c*m1 - a*m3`: two components of `l1 x (H^T l2)`, which
/// vanish where `H^T l2` is a multiple of `l1`.
pub proof fn line_restriction_meaning(l1: Line<i64>, l2: Line<i64>, h: Seq<int>)
    requires
        h.len() == 9,
        small(l1.a),
        small(l1.b),
        small(l1.c),
        small(l2.a),
        small(l2.b),
        small(l2.c),
    ensures
        residual(line_restriction(l1, l2)[0], h) == l1.b * pulled_back(
            h,
            l2.a as int,
            l2.b as int,
            l2.c as int,
        ).2 - l1.c * pulled_back(h, l2.a as int, l2.b as int, l2.c as int).1,
        residual(line_restriction(l1, l2)[1], h) == l1.c * pulled_back(
            h,
            l2.a as int,
            l2.b as int,
            l2.c as int,
        ).0 - l1.a * pulled_back(h, l2.a as int, l2.b as int, l2.c as int).2,
{
    let a = l1.a as int;
    let b = l1.b as int;
    let c = l1.c as int;
    let ap = l2.a as int;
    let bp = l2.b as int;
    let cp = l2.c as int;
    product_of_small(l1.a, l2.a);
    product_of_small(l1.a, l2.b);
    product_of_small(l1.a, l2.c);
    product_of_small(l1.b, l2.a);
    product_of_small(l1.b, l2.b);
    product_of_small(l1.b, l2.c);
    product_of_small(l1.c, l2.a);
    product_of_small(l1.c, l2.b);
    product_of_small(l1.c, l2.c);
    let r0 = line_restriction(l1, l2)[0];
    let r1 = line_restriction(l1, l2)[1];
    assert(r0[0] == 0 && r0[1] == -(c * ap) && r0[2] == b * ap);
    assert(r0[3] == 0 && r0[4] == -(c * bp) && r0[5] == b * bp);
    assert(r0[6] == 0 && r0[7] == -(c * cp) && r0[8] == b * cp);
    assert(r1[0] == c * ap && r1[1] == 0 && r1[2] == -(a * ap));
    assert(r1[3] == c * bp && r1[4] == 0 && r1[5] == -(a * bp));
    assert(r1[6] == c * cp && r1[7] == 0 && r1[8] == -(a * cp));
    let (h0, h1, h2, h3, h4, h5, h6, h7, h8) = (
        h[0],
        h[1],
        h[2],
        h[3],
        h[4],
        h[5],
        h[6],
        h[7],
        h[8],
    );
    let (m1, m2, m3) = pulled_back(h, ap, bp, cp);
    // first row: b*m3 - c*m2
    product_regrouped(b, ap, h2);
    product_regrouped(b, bp, h5);
    product_regrouped(b, cp, h8);
    product_regrouped(c, ap, h1);
    product_regrouped(c, bp, h4);
    product_regrouped(c, cp, h7);
    difference_of_combinations(b, h2 * ap, h5 * bp, h8 * cp, c, h1 * ap, h4 * bp, h7 * cp);
    assert(residual(r0, h) == b * m3 - c * m2);
    // second row: c*m1 - a*m3
    product_regrouped(c, ap, h0);
    product_regrouped(c, bp, h3);
    product_regrouped(c, cp, h6);
    product_regrouped(a, ap, h2);
    product_regrouped(a, bp, h5);
    product_regrouped(a, cp, h8);
    difference_of_combinations(c, h0 * ap, h3 * bp, h6 * cp, a, h2 * ap, h5 * bp, h8 * cp);
    assert(residual(r1, h) == c * m1 - a * m3);
}

} // verus!
