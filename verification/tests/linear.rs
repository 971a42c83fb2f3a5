use float_cmp::ApproxEq;
use float_cmp::F64Margin;
use linear::matrix::Matrix;
use linear::vector::Vector;

/// The epsilon of the dual tolerance criterion; the ULP half lives in the
/// library.
const EPSILON: f64 = 0.00001;

fn bits(xs: &[f64]) -> Vec<u64> {
    xs.iter().map(|x| x.to_bits()).collect()
}

fn vector(xs: &[f64]) -> Vector {
    Vector::new(&bits(xs))
}

fn matrix(rows: &[&[f64]]) -> Option<Matrix> {
    let rows_bits: Vec<Vec<u64>> = rows.iter().map(|r| bits(r)).collect();
    Matrix::new(&rows_bits)
}

/// Left-to-right product-sum of the factor pairs a dot product or squared
/// norm is made of.
fn fold_terms(terms: &[(u64, u64)]) -> f64 {
    let mut sum = 0.0;
    for (a, b) in terms.iter() {
        sum += f64::from_bits(*a) * f64::from_bits(*b);
    }
    sum
}

fn l2norm(v: &Vector) -> f64 {
    fold_terms(&v.l2norm_terms())
}

fn norm(v: &Vector) -> f64 {
    l2norm(v).sqrt()
}

fn dot(a: &Vector, b: &Vector) -> f64 {
    assert_eq!(a.dim(), b.dim());
    fold_terms(&a.dot_terms(b))
}

/// The epsilon clause of the per-element test, judged with plain
/// floating-point arithmetic.
fn within_eps(a: u64, b: u64) -> bool {
    (f64::from_bits(a) - f64::from_bits(b)).abs() <= EPSILON
}

fn vec_ap_eq(a: &Vector, b: &Vector) -> bool {
    assert_eq!(a.dim(), b.dim());
    let eps: Vec<bool> = (0..a.dim()).map(|i| within_eps(a.get(i), b.get(i))).collect();
    a.ap_eq(b, &eps)
}

fn mat_ap_eq(a: &Matrix, b: &Matrix) -> bool {
    let eps: Vec<Vec<bool>> = if a.dim() == b.dim() {
        (0..a.dim().0)
            .map(|i| {
                let ra = a.row(i);
                let rb = b.row(i);
                (0..a.dim().1).map(|j| within_eps(ra.get(j), rb.get(j))).collect()
            })
            .collect()
    } else {
        Vec::new()
    };
    a.ap_eq(b, &eps)
}

fn mat_mul(a: &Matrix, b: &Matrix) -> Matrix {
    assert_eq!(a.dim().0, b.dim().1);
    assert_eq!(a.dim().1, b.dim().0);
    let cells = a.mul_terms(b);
    let rows: Vec<Vec<u64>> = cells
        .iter()
        .map(|row| row.iter().map(|cell| fold_terms(cell).to_bits()).collect())
        .collect();
    Matrix::new(&rows).unwrap()
}

#[test]
fn test_norm() {
    assert!(l2norm(&vector(&[1.0, 2.0, 3.0]))
        .approx_eq(1.0 * 1.0 + 2.0 * 2.0 + 3.0 * 3.0, F64Margin::default()));
    assert!(norm(&vector(&[1.0, 2.0, 3.0]))
        .approx_eq((1.0 * 1.0 + 2.0 * 2.0 + 3.0 * 3.0 as f64).sqrt(), F64Margin::default()));
}

#[test]
fn test_dot() {
    assert!(dot(&vector(&[1.0, 2.0, 3.0]), &vector(&[2.0, 4.0, 6.0]))
        .approx_eq(2.0 + 8.0 + 18.0, F64Margin::default()));
}

#[test]
fn test_ap_eq() {
    let mat1 = matrix(&[&[1.0, 2.0], &[3.0, 4.0], &[5.0, 6.0]]).unwrap();
    let mat2 = matrix(&[&[1.0, 2.0], &[3.0, 4.0], &[5.0, 6.0]]).unwrap();
    let v1 = vector(&[1.0, 2.0, 3.0]);
    let v2 = vector(&[1.0, 2.0, 3.0]);
    assert!(mat_ap_eq(&mat1, &mat2));
    assert!(vec_ap_eq(&v1, &v2));
}

#[test]
fn test_mat_mul() {
    let mat1 = matrix(&[&[1.0, 2.0], &[3.0, 4.0], &[5.0, 6.0]]).unwrap();
    let mat2 = matrix(&[&[1.0, 2.0, 3.0], &[4.0, 5.0, 6.0]]).unwrap();
    let result =
        matrix(&[&[9.0, 12.0, 15.0], &[19.0, 26.0, 33.0], &[29.0, 40.0, 51.0]]).unwrap();
    assert!(mat_ap_eq(&result, &mat_mul(&mat1, &mat2)));
}

#[test]
fn test_mat_mul_exact() {
    let mat1 = matrix(&[&[1.0, 2.0], &[3.0, 4.0], &[5.0, 6.0]]).unwrap();
    let mat2 = matrix(&[&[1.0, 2.0, 3.0], &[4.0, 5.0, 6.0]]).unwrap();
    let p = mat_mul(&mat1, &mat2);
    let expected = [[9.0, 12.0, 15.0], [19.0, 26.0, 33.0], [29.0, 40.0, 51.0]];
    assert_eq!(p.dim(), (3, 3));
    for i in 0..3 {
        let r = p.row(i);
        for j in 0..3 {
            assert_eq!(f64::from_bits(r.get(j)), expected[i][j]);
        }
    }
}

#[test]
fn test_dot_exact_value() {
    assert_eq!(dot(&vector(&[1.0, 2.0, 3.0]), &vector(&[2.0, 4.0, 6.0])), 28.0);
}

#[test]
fn test_empty_vector_norm() {
    let v = vector(&[]);
    assert_eq!(v.dim(), 0);
    assert_eq!(l2norm(&v), 0.0);
    assert_eq!(norm(&v), 0.0);
}

#[test]
fn test_vector_get_set() {
    let mut v = vector(&[1.5, -2.5, 3.25]);
    assert_eq!(v.dim(), 3);
    assert_eq!(f64::from_bits(v.get(1)), -2.5);
    v.set(1, (7.75f64).to_bits());
    assert_eq!(f64::from_bits(v.get(1)), 7.75);
    assert_eq!(f64::from_bits(v.get(0)), 1.5);
    assert_eq!(f64::from_bits(v.get(2)), 3.25);
}

#[test]
fn test_matrix_construction() {
    let m = matrix(&[&[1.0, 2.0], &[3.0, 4.0], &[5.0, 6.0]]).unwrap();
    assert_eq!(m.dim(), (3, 2));
    assert!(matrix(&[&[1.0, 2.0], &[3.0]]).is_none());
    assert!(matrix(&[]).is_none());
    // Rows of length zero are uniform, so construction succeeds.
    let empty_rows = matrix(&[&[], &[]]).unwrap();
    assert_eq!(empty_rows.dim(), (2, 0));
}

#[test]
fn test_row_col() {
    let m = matrix(&[&[1.0, 2.0], &[3.0, 4.0], &[5.0, 6.0]]).unwrap();
    assert!(vec_ap_eq(&m.row(1), &vector(&[3.0, 4.0])));
    assert!(vec_ap_eq(&m.col(1), &vector(&[2.0, 4.0, 6.0])));
    assert_eq!(f64::from_bits(m.row(1).get(0)), 3.0);
    assert_eq!(f64::from_bits(m.col(1).get(2)), 6.0);
}

#[test]
fn test_zeros() {
    let z = Matrix::zeros((2, 3));
    assert_eq!(z.dim(), (2, 3));
    for i in 0..2 {
        let r = z.row(i);
        for j in 0..3 {
            assert_eq!(f64::from_bits(r.get(j)), 0.0);
        }
    }
    assert!(mat_ap_eq(&Matrix::zeros((2, 3)), &Matrix::zeros((2, 3))));
}

#[test]
fn test_add_takes_rhs() {
    let a = matrix(&[&[1.0, 2.0], &[3.0, 4.0]]).unwrap();
    let b = matrix(&[&[10.0, 20.0], &[30.0, 40.0]]).unwrap();
    let s = a.add(&b);
    assert_eq!(s.dim(), (2, 2));
    for i in 0..2 {
        for j in 0..2 {
            assert_eq!(s.row(i).get(j), b.row(i).get(j));
        }
    }
}

#[test]
fn test_ap_eq_tolerance() {
    // Below the epsilon threshold: equal.
    assert!(vec_ap_eq(&vector(&[1.0, 2.0]), &vector(&[1.0 + 1e-6, 2.0 - 1e-6])));
    // Clearly above every threshold: unequal.
    assert!(!vec_ap_eq(&vector(&[1.0, 2.0]), &vector(&[1.1, 2.0])));
    // Differing dimensions: matrices compare unequal at once.
    let a = matrix(&[&[1.0, 2.0]]).unwrap();
    let b = matrix(&[&[1.0], &[2.0]]).unwrap();
    assert!(!mat_ap_eq(&a, &b));
}

#[test]
fn test_ap_eq_ulps_clause() {
    // At 1e20 one ULP is far larger than the epsilon, so only the ULP
    // clause can pass: 3 steps away is equal, 7 steps away is not.
    let x: f64 = 1e20;
    let near = f64::from_bits(x.to_bits() + 3);
    let far = f64::from_bits(x.to_bits() + 7);
    assert!((x - near).abs() > EPSILON);
    assert!(vec_ap_eq(&vector(&[x]), &vector(&[near])));
    assert!(!vec_ap_eq(&vector(&[x]), &vector(&[far])));
}

#[test]
fn test_ap_eq_matches_float_cmp() {
    // The library's verdict must agree with float_cmp's approx_eq under the
    // same margin on every pair, edge cases included.
    let margin = F64Margin { epsilon: EPSILON, ulps: 5 };
    let specials = [
        0.0,
        -0.0,
        1.0,
        -1.0,
        1.0 + 1e-6,
        1.1,
        1e20,
        f64::from_bits((1e20f64).to_bits() + 5),
        f64::from_bits((1e20f64).to_bits() + 6),
        -1e20,
        f64::MIN_POSITIVE,
        -f64::MIN_POSITIVE,
        5e-324,
        -5e-324,
        f64::INFINITY,
        f64::NEG_INFINITY,
        f64::MAX,
        f64::MIN,
        f64::NAN,
        -f64::NAN,
    ];
    for &x in specials.iter() {
        for &y in specials.iter() {
            let expected = x.approx_eq(y, margin);
            let got = vec_ap_eq(&vector(&[x]), &vector(&[y]));
            assert_eq!(got, expected, "disagree on {x:?} vs {y:?}");
        }
    }
}

#[test]
fn test_row_round_trip() {
    let m = matrix(&[&[1.0, 2.5], &[-3.0, 4.0], &[5.5, -6.0]]).unwrap();
    let rows_bits: Vec<Vec<u64>> = (0..m.dim().0)
        .map(|i| {
            let r = m.row(i);
            (0..r.dim()).map(|j| r.get(j)).collect()
        })
        .collect();
    let rebuilt = Matrix::new(&rows_bits).unwrap();
    assert_eq!(rebuilt.dim(), m.dim());
    assert!(mat_ap_eq(&m, &rebuilt));
}

#[test]
fn test_mul_terms_pairs() {
    // The plan for cell (i, j) pairs row i of the left operand with column
    // j of the right one, in order.
    let a = matrix(&[&[1.0, 2.0], &[3.0, 4.0]]).unwrap();
    let b = matrix(&[&[5.0, 6.0], &[7.0, 8.0]]).unwrap();
    let cells = a.mul_terms(&b);
    assert_eq!(cells.len(), 2);
    assert_eq!(cells[0].len(), 2);
    let cell01: Vec<(f64, f64)> = cells[0][1]
        .iter()
        .map(|p| (f64::from_bits(p.0), f64::from_bits(p.1)))
        .collect();
    assert_eq!(cell01, vec![(1.0, 6.0), (2.0, 8.0)]);
}
