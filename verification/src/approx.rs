//! Tolerance-based comparison of double-precision values, carried out on
//! their IEEE-754 bit patterns.
//!
//! Every scalar in this crate is a `u64` holding the bit pattern of a
//! double-precision value (`f64::to_bits` / `f64::from_bits` convert at the
//! boundary). Two scalars count as approximately equal when any one of three
//! per-element tests passes, the dual criterion of float_cmp's `approx_eq`:
//!
//! 1. exact IEEE-754 equality (`f64_eq_bits`),
//! 2. an absolute difference within an epsilon of `1e-5` — a floating-point
//!    subtraction that cannot be carried out here, so its verdict is handed
//!    in by the caller as a plain `bool`,
//! 3. a distance of at most `MAX_ULPS` units in the last place
//!    (`ulps_near`), computed purely on the bit patterns.

use vstd::prelude::*;

verus! {

/// Sign bit of an IEEE-754 double.
pub const SIGN_MASK: u64 = 0x8000_0000_0000_0000;

/// Exponent field of an IEEE-754 double.
pub const EXP_MASK: u64 = 0x7FF0_0000_0000_0000;

/// Fraction (mantissa) field of an IEEE-754 double.
pub const FRAC_MASK: u64 = 0x000F_FFFF_FFFF_FFFF;

/// Everything but the sign bit: the magnitude of an IEEE-754 double.
pub const MAG_MASK: u64 = 0x7FFF_FFFF_FFFF_FFFF;

/// Largest distance, in representable-value steps, at which two doubles
/// still count as approximately equal.
pub const MAX_ULPS: u64 = 5;

/// The bit pattern encodes a NaN: exponent all ones, fraction nonzero.
pub open spec fn is_nan_bits(x: u64) -> bool {
    x & EXP_MASK == EXP_MASK && x & FRAC_MASK != 0
}

/// IEEE-754 equality of the doubles the two bit patterns encode: positive
/// and negative zero are equal, a NaN is equal to nothing (itself included),
/// and every other value is equal exactly to its own bit pattern.
pub open spec fn f64_eq_bits(a: u64, b: u64) -> bool {
    (a & MAG_MASK == 0 && b & MAG_MASK == 0) || (a == b && !is_nan_bits(a))
}

/// Maps a double's bit pattern to a key whose unsigned order is the order of
/// the doubles themselves (NaNs beyond the infinities): negative values are
/// complemented, non-negative values get the sign bit set.
pub open spec fn ordered_bits(x: u64) -> u64 {
    if x & SIGN_MASK != 0 {
        !x
    } else {
        x ^ SIGN_MASK
    }
}

/// Difference of two keys, wrapping modulo 2^64.
pub open spec fn wrap_diff(a: u64, b: u64) -> u64 {
    if a >= b {
        (a - b) as u64
    } else {
        (a - b + 0x1_0000_0000_0000_0000) as u64
    }
}

/// The two doubles lie within `MAX_ULPS` representable-value steps of each
/// other: the wrapping difference of their order keys, read as a signed
/// 64-bit count, is in `[-MAX_ULPS, MAX_ULPS]`.
pub open spec fn ulps_near(a: u64, b: u64) -> bool {
    wrap_diff(ordered_bits(a), ordered_bits(b)) <= MAX_ULPS
        || wrap_diff(ordered_bits(a), ordered_bits(b)) > u64::MAX - MAX_ULPS
}

/// One element pair passes the dual tolerance test: exact equality, or the
/// caller-supplied epsilon verdict, or closeness in ULPs.
pub open spec fn pair_close(a: u64, b: u64, within_eps: bool) -> bool {
    f64_eq_bits(a, b) || within_eps || ulps_near(a, b)
}

/// Elementwise tolerance test over two equally long scalar sequences, with
/// the epsilon verdict for each pair supplied alongside.
pub open spec fn seq_close(a: Seq<u64>, b: Seq<u64>, eps: Seq<bool>) -> bool {
    forall|i: int| 0 <= i < a.len() ==> pair_close(a[i], b[i], eps[i])
}

/// Elementwise tolerance test over two grids of scalars of equal shape.
pub open spec fn grid_close(a: Seq<Seq<u64>>, b: Seq<Seq<u64>>, eps: Seq<Seq<bool>>) -> bool {
    forall|i: int, j: int|
        0 <= i < a.len() && 0 <= j < a[i].len() ==> pair_close(a[i][j], b[i][j], eps[i][j])
}

/// Exact IEEE-754 equality of two doubles, decided on their bit patterns.
pub fn exact_eq(a: u64, b: u64) -> (r: bool)
    ensures
        r == f64_eq_bits(a, b),
{
    (a & MAG_MASK == 0 && b & MAG_MASK == 0)
        || (a == b && !(a & EXP_MASK == EXP_MASK && a & FRAC_MASK != 0))
}

/// Order key of a double's bit pattern (see `ordered_bits`).
fn ordered(x: u64) -> (r: u64)
    ensures
        r == ordered_bits(x),
{
    if x & SIGN_MASK != 0 {
        !x
    } else {
        x ^ SIGN_MASK
    }
}

/// ULP closeness of two doubles, decided on their bit patterns.
pub fn close_by_ulps(a: u64, b: u64) -> (r: bool)
    ensures
        r == ulps_near(a, b),
{
    let oa: u64 = ordered(a);
    let ob: u64 = ordered(b);
    let d: u64 = if oa >= ob {
        oa - ob
    } else {
        u64::MAX - (ob - oa) + 1
    };
    proof {
        assert(d == wrap_diff(ordered_bits(a), ordered_bits(b)));
    }
    d <= MAX_ULPS || d > u64::MAX - MAX_ULPS
}

/// Full per-element tolerance test. The epsilon clause — whether the two
/// doubles differ by at most `1e-5` in absolute value — is floating-point
/// work and is handed in as `within_eps`; this function decides the rest.
pub fn element_close(a: u64, b: u64, within_eps: bool) -> (r: bool)
    ensures
        r == pair_close(a, b, within_eps),
{
    exact_eq(a, b) || within_eps || close_by_ulps(a, b)
}

/// Every scalar is approximately equal to itself, whatever the epsilon
/// verdict says: the distance in ULPs is zero. This holds even of NaN,
/// which is not exactly equal to itself.
pub proof fn lemma_pair_close_reflexive(x: u64, within_eps: bool)
    ensures
        pair_close(x, x, within_eps),
{
    assert(wrap_diff(ordered_bits(x), ordered_bits(x)) == 0);
}

/// A scalar sequence is approximately equal to itself under any epsilon
/// verdicts.
pub proof fn lemma_seq_close_reflexive(v: Seq<u64>, eps: Seq<bool>)
    ensures
        seq_close(v, v, eps),
{
    assert forall|i: int| 0 <= i < v.len() implies pair_close(v[i], v[i], eps[i]) by {
        lemma_pair_close_reflexive(v[i], eps[i]);
    }
}

/// A grid of scalars is approximately equal to itself under any epsilon
/// verdicts.
pub proof fn lemma_grid_close_reflexive(m: Seq<Seq<u64>>, eps: Seq<Seq<bool>>)
    ensures
        grid_close(m, m, eps),
{
    assert forall|i: int, j: int|
        0 <= i < m.len() && 0 <= j < m[i].len() implies pair_close(
        m[i][j],
        m[i][j],
        eps[i][j],
    ) by {
        lemma_pair_close_reflexive(m[i][j], eps[i][j]);
    }
}

} // verus!
