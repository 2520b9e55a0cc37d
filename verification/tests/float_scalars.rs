use homography::functions::{
    generate_matrix_from_correspondences, solve, Decomposition, DesignMatrix, HomographySolution,
};
use homography::geo::{Line, Point};
use homography::interface::{Vectorizable, WithRestriction};
use homography::pairs::{Correspondence, LinePair, PointPair};
use homography::scalar::Scalar;
use homography::HomographyComputation;
use nalgebra::{DMatrix, RealField};
use num_traits::Float;

/// A floating-point number as a scalar of the library.
#[derive(Clone, Copy, Debug, PartialEq)]
struct Real<F>(F);

impl<F: Float> Scalar for Real<F> {
    fn zero_value() -> Self {
        Real(F::zero())
    }

    fn one_value() -> Self {
        Real(F::one())
    }

    fn negation(self) -> Self {
        Real(-self.0)
    }

    fn difference(self, other: Self) -> Self {
        Real(self.0 - other.0)
    }

    fn product(self, other: Self) -> Self {
        Real(self.0 * other.0)
    }

    fn zero() -> Self {
        Real(F::zero())
    }

    fn one() -> Self {
        Real(F::one())
    }

    fn negate(self) -> Self {
        Real(-self.0)
    }

    fn minus(self, other: Self) -> Self {
        Real(self.0 - other.0)
    }

    fn times(self, other: Self) -> Self {
        Real(self.0 * other.0)
    }
}

fn point<F: Float>(x: F, y: F) -> Point<Real<F>> {
    Point::new(Real(x), Real(y))
}

fn line<F: Float>(a: F, b: F, c: F) -> Line<Real<F>> {
    Line::new(Real(a), Real(b), Real(c))
}

/// The singular value decomposition of nalgebra, on a system of the library.
fn svd<F: RealField + Copy>(matrix: DesignMatrix<Real<F>>) -> Decomposition<Real<F>> {
    let m = DMatrix::from_fn(matrix.rows.len(), 9, |i, j| matrix.rows[i][j].0);
    let svd = m.svd(false, true);
    let v_t = svd.v_t.unwrap();
    let mut vectors = Vec::new();
    for i in 0..v_t.nrows() {
        let mut row = [Real(F::zero()); 9];
        for j in 0..9 {
            row[j] = Real(v_t[(i, j)]);
        }
        vectors.push(row);
    }
    let values = svd.singular_values.iter().map(|s| Real(*s)).collect();
    Decomposition::new(vectors, values).unwrap()
}

/// The image of `(x, y)` under the homography, after the homogeneous divide.
fn transform(solution: &HomographySolution<Real<f64>>, x: f64, y: f64) -> (f64, f64) {
    let h = &solution.matrix.rows;
    let u = h[0][0].0 * x + h[0][1].0 * y + h[0][2].0;
    let v = h[1][0].0 * x + h[1][1].0 * y + h[1][2].0;
    let w = h[2][0].0 * x + h[2][1].0 * y + h[2][2].0;
    (u / w, v / w)
}

const SOURCE: [(f64, f64); 4] = [(148., 337.), (131., 516.), (321., 486.), (332., 370.)];
const TARGET: [(f64, f64); 4] = [(0., 0.), (0., 60.), (80., 60.), (80., 0.)];

/// The four corners and the four sides of the quadrilateral, each side with
/// the side of the rectangle that its two corners are carried to.
fn quadrilateral() -> HomographyComputation<Real<f64>> {
    let mut hc = HomographyComputation::new();
    for i in 0..4 {
        hc.add_point_correspondence(
            point(SOURCE[i].0, SOURCE[i].1),
            point(TARGET[i].0, TARGET[i].1),
        );
    }
    for i in 0..4 {
        let j = (i + 1) % 4;
        let side = Line::from_points(
            &point(SOURCE[i].0, SOURCE[i].1),
            &point(SOURCE[j].0, SOURCE[j].1),
        );
        let image = Line::from_points(
            &point(TARGET[i].0, TARGET[i].1),
            &point(TARGET[j].0, TARGET[j].1),
        );
        hc.add_line_correspondence(side, image);
    }
    hc
}

#[test]
fn test_create_point() {
    let p = Point::new(Real(1.0), Real(2.0));
    assert_eq!(p.x, Real(1.0));
    assert_eq!(p.y, Real(2.0));
}

#[test]
fn test_create_line() {
    let l = Line::new(Real(1.0), Real(2.0), Real(3.0));
    assert_eq!(l.a, Real(1.0));
    assert_eq!(l.b, Real(2.0));
    assert_eq!(l.c, Real(3.0));
}

#[test]
fn test_line_from_points() {
    let p1 = Point::new(Real(1.0), Real(2.0));
    let p2 = Point::new(Real(3.0), Real(4.0));
    let l = Line::from_points(&p1, &p2);
    assert_eq!(l.a, Real(2.0));
    assert_eq!(l.b, Real(-2.0));
    assert_eq!(l.c, Real(2.0));
}

#[test]
fn test_point_to_vector() {
    let p = Point::new(Real(1.0f32), Real(2.0f32));
    let v = p.to_vector();
    assert_eq!(v[0], Real(1.0));
    assert_eq!(v[1], Real(2.0));
}

#[test]
fn test_line_to_vector() {
    let l = Line::new(Real(1.0f32), Real(2.0f32), Real(3.0f32));
    let v = l.to_vector();
    assert_eq!(v[0], Real(1.0));
    assert_eq!(v[1], Real(2.0));
    assert_eq!(v[2], Real(3.0));
}

#[test]
fn test_generate_restriction_point_pair() {
    let p1 = point(1., 2.);
    let p2 = point(3., 4.);
    let pair = PointPair { p1, p2 };

    let _restriction = pair.generate_restriction();
}

#[test]
fn test_generate_restriction_line_pair() {
    let l1 = line(1., 2., 3.);
    let l2 = line(4., 5., 6.);
    let pair = LinePair { l1, l2 };

    let _restriction = pair.generate_restriction();
}

#[test]
fn test_generate_matrix_from_correspondences() {
    let p1 = point(1., 2.);
    let p2 = point(3., 4.);
    let l1 = line(1., 2., 3.);
    let l2 = line(4., 5., 6.);

    let pp = PointPair { p1, p2 };
    let lp = LinePair { l1, l2 };

    let matrix = generate_matrix_from_correspondences(vec![
        Correspondence::Points(pp),
        Correspondence::Lines(lp),
    ]);
    assert_eq!(matrix.nrows(), 9);
    assert_eq!(matrix.ncols(), 9);
}

#[test]
fn test_solve() {
    // Four rows and nine columns, filled column by column with 1 to 9 over
    // and over.
    let data = [
        1., 2., 3., 4., 5., 6., 7., 8., 9., 1., 2., 3., 4., 5., 6., 7., 8., 9., 1., 2., 3., 4.,
        5., 6., 7., 8., 9., 1., 2., 3., 4., 5., 6., 7., 8., 9.,
    ];
    let mut rows = Vec::new();
    for i in 0..4 {
        let mut row = [Real(0.0f64); 9];
        for j in 0..9 {
            row[j] = Real(data[j * 4 + i]);
        }
        rows.push(row);
    }
    let matrix = DesignMatrix { rows };

    let _solution = solve(matrix, svd);
}

#[test]
fn test_create_homography_computation() {
    let hc = HomographyComputation::<Real<f32>>::new();
    assert_eq!(hc.point_correspondences().len(), 0);
    assert_eq!(hc.line_correspondences().len(), 0);
}

#[test]
fn test_add_point_correspondence() {
    let mut hc = HomographyComputation::new();
    let p1 = point(1.0f32, 2.);
    let p2 = point(3., 4.);

    hc.add_point_correspondence(p1, p2);
    assert_eq!(hc.point_correspondences().len(), 1);
}

#[test]
fn test_add_line_correspondence() {
    let mut hc = HomographyComputation::new();
    let l1 = line(1.0f32, 2., 3.);
    let l2 = line(4., 5., 6.);

    hc.add_line_correspondence(l1, l2);
    assert_eq!(hc.line_correspondences().len(), 1);
}

#[test]
fn test_get_restrictions() {
    let mut hc = HomographyComputation::new();
    let p1 = point(1.0f32, 2.);
    let p2 = point(3., 4.);
    let l1 = line(1., 2., 3.);
    let l2 = line(4., 5., 6.);

    hc.add_point_correspondence(p1, p2);
    hc.add_line_correspondence(l1, l2);

    let restrictions = hc.get_restrictions();
    assert_eq!(restrictions.len(), 2);
}

#[test]
fn test_compute_homography_solution() {
    let mut hc = HomographyComputation::new();
    let p1 = point(148.0f32, 337.);
    let p2 = point(131., 516.);
    let p3 = point(321., 486.);
    let p4 = point(332., 370.);

    let p1p = point(0., 0.);
    let p2p = point(0., 60.);
    let p3p = point(80., 60.);
    let p4p = point(80., 0.);

    let line1 = Line::from_points(&p1, &p2);
    let line1p = Line::from_points(&p1p, &p2p);

    hc.add_point_correspondence(p1, p1p);
    hc.add_point_correspondence(p2, p2p);
    hc.add_point_correspondence(p3, p3p);
    hc.add_point_correspondence(p4, p4p);

    hc.add_line_correspondence(line1, line1p);

    let restrictions = hc.get_restrictions();
    let solution = restrictions.compute(svd);

    assert_eq!(solution.matrix.nrows(), 3);
    assert_eq!(solution.matrix.ncols(), 3);
}

#[test]
fn point_restriction_in_floating_point() {
    let pair = PointPair { p1: point(1.5, -2.25), p2: point(3.0, 0.5) };
    let r = pair.generate_restriction();
    let expected0 = [0., 0., 0., -1.5, 2.25, -1., 0.75, -1.125, 0.5];
    let expected1 = [1.5, -2.25, 1., 0., 0., 0., -4.5, 6.75, -3.];
    for j in 0..9 {
        assert_eq!(r.get(0, j), Real(expected0[j]));
        assert_eq!(r.get(1, j), Real(expected1[j]));
    }
}

#[test]
fn line_restriction_in_floating_point() {
    let pair = LinePair { l1: line(1., 2., 3.), l2: line(4., 5., 6.) };
    let r = pair.generate_restriction();
    let expected0 = [0., -12., 8., 0., -15., 10., 0., -18., 12.];
    let expected1 = [12., 0., -4., 15., 0., -5., 18., 0., -6.];
    for j in 0..9 {
        assert_eq!(r.get(0, j), Real(expected0[j]));
        assert_eq!(r.get(1, j), Real(expected1[j]));
    }
}

#[test]
fn restriction_is_the_same_every_time() {
    let points = PointPair { p1: point(148.3f64, 337.1), p2: point(0.7, 59.9) };
    let first = points.generate_restriction();
    let second = points.generate_restriction();
    for i in 0..2 {
        for j in 0..9 {
            assert_eq!(first.get(i, j).0.to_bits(), second.get(i, j).0.to_bits());
        }
    }
    let lines = LinePair { l1: line(0.1f64, -2.5, 3.75), l2: line(4.2, 5.5, -6.125) };
    let first = lines.generate_restriction();
    let second = lines.generate_restriction();
    for i in 0..2 {
        for j in 0..9 {
            assert_eq!(first.get(i, j).0.to_bits(), second.get(i, j).0.to_bits());
        }
    }
}

#[test]
fn quadrilateral_is_carried_onto_rectangle() {
    let restrictions = quadrilateral().get_restrictions();
    assert_eq!(restrictions.len(), 8);
    let solution = restrictions.compute(svd);
    for i in 0..4 {
        let (x, y) = transform(&solution, SOURCE[i].0, SOURCE[i].1);
        assert!((x - TARGET[i].0).abs() < 1e-3, "corner {}: x = {}", i, x);
        assert!((y - TARGET[i].1).abs() < 1e-3, "corner {}: y = {}", i, y);
    }
}

#[test]
fn quadrilateral_from_corners_alone() {
    let mut list = Vec::new();
    for i in 0..4 {
        list.push(PointPair {
            p1: point(SOURCE[i].0, SOURCE[i].1),
            p2: point(TARGET[i].0, TARGET[i].1),
        });
    }
    let matrix = generate_matrix_from_correspondences(list);
    assert_eq!(matrix.nrows(), 9);
    let solution = solve(matrix, svd);
    for i in 0..4 {
        let (x, y) = transform(&solution, SOURCE[i].0, SOURCE[i].1);
        assert!((x - TARGET[i].0).abs() < 1e-3, "corner {}: x = {}", i, x);
        assert!((y - TARGET[i].1).abs() < 1e-3, "corner {}: y = {}", i, y);
    }
    assert!(solution.value.0.abs() < 1e-6);
}

#[test]
fn scaled_solution_is_as_good() {
    let solution = quadrilateral().get_restrictions().compute(svd);
    for factor in [2.0, -1.0, 0.125, -37.5] {
        let mut rows = solution.matrix.rows;
        for i in 0..3 {
            for j in 0..3 {
                rows[i][j] = Real(rows[i][j].0 * factor);
            }
        }
        let scaled = HomographySolution {
            matrix: homography::functions::Matrix3 { rows },
            value: solution.value,
        };
        for i in 0..4 {
            let (x, y) = transform(&scaled, SOURCE[i].0, SOURCE[i].1);
            assert!((x - TARGET[i].0).abs() < 1e-3);
            assert!((y - TARGET[i].1).abs() < 1e-3);
        }
    }
}

#[test]
fn solution_agrees_with_reference_after_normalizing() {
    // The homography of the four corners, found by elimination and scaled so
    // that its last entry is one, is what both estimates must agree with.
    let with_lines = quadrilateral().get_restrictions().compute(svd);
    let mut hc = HomographyComputation::new();
    for i in 0..4 {
        hc.add_point_correspondence(
            point(SOURCE[i].0, SOURCE[i].1),
            point(TARGET[i].0, TARGET[i].1),
        );
    }
    let corners_only = hc.get_restrictions().compute(svd);
    let a = with_lines.matrix.rows[2][2].0;
    let b = corners_only.matrix.rows[2][2].0;
    assert!(a != 0.0 && b != 0.0);
    for i in 0..3 {
        for j in 0..3 {
            let x = with_lines.matrix.rows[i][j].0 / a;
            let y = corners_only.matrix.rows[i][j].0 / b;
            assert!((x - y).abs() < 1e-6 * (1.0 + y.abs()), "entry ({}, {}): {} and {}", i, j, x, y);
        }
    }
}

#[test]
fn three_points_still_solve() {
    let mut list = Vec::new();
    for i in 0..3 {
        list.push(PointPair {
            p1: point(SOURCE[i].0, SOURCE[i].1),
            p2: point(TARGET[i].0, TARGET[i].1),
        });
    }
    let matrix = generate_matrix_from_correspondences(list);
    assert_eq!(matrix.nrows(), 9);
    assert_eq!(matrix.ncols(), 9);
    for k in 6..9 {
        assert_eq!(matrix.row(k), [Real(0.0); 9]);
    }
    let solution = solve(matrix, svd);
    assert_eq!(solution.matrix.nrows(), 3);
    assert_eq!(solution.matrix.ncols(), 3);
}

#[test]
fn no_correspondence_gives_nine_zero_rows() {
    let matrix = generate_matrix_from_correspondences(Vec::<PointPair<Real<f64>>>::new());
    assert_eq!(matrix.nrows(), 9);
    for k in 0..9 {
        assert_eq!(matrix.row(k), [Real(0.0); 9]);
    }
}

#[test]
fn no_correspondence_still_solves() {
    let restrictions = HomographyComputation::<Real<f64>>::new().get_restrictions();
    assert_eq!(restrictions.len(), 0);
    let solution = restrictions.compute(svd);
    assert_eq!(solution.matrix.nrows(), 3);
    assert_eq!(solution.value, Real(0.0));
}

#[test]
fn solve_takes_last_vector_row_by_row() {
    let mut vectors = Vec::new();
    for i in 0..9 {
        let mut row = [Real(0.0f64); 9];
        for j in 0..9 {
            row[j] = Real((10 * i + j) as f64);
        }
        vectors.push(row);
    }
    let values: Vec<Real<f64>> = (0..9).map(|i| Real(9.0 - i as f64)).collect();
    let matrix = DesignMatrix { rows: vec![[Real(1.0f64); 9]; 9] };
    let solution = solve(matrix, |_| Decomposition::new(vectors, values).unwrap());
    assert_eq!(solution.value, Real(1.0));
    for i in 0..3 {
        for j in 0..3 {
            assert_eq!(solution.matrix.get(i, j), Real((80 + 3 * i + j) as f64));
        }
    }
}
