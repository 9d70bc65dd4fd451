//! Exact rational arithmetic for monetary quantities.
//!
//! Every amount of cash, every price, fee and traded quantity in this crate
//! is a `Rat`: a fraction `num / den` of two machine integers with a positive
//! denominator. Arithmetic is exact; results are reduced by the greatest
//! common divisor of numerator and denominator before being stored back into
//! machine words. An operation returns `None` only when even the reduced
//! result does not fit the machine representation.

use vstd::arithmetic::div_mod::{
    lemma_fundamental_div_mod, lemma_mod_bound, lemma_mod_multiples_basic,
};
use vstd::prelude::*;

verus! {

/// An exact rational number `num / den`, with `den >= 1`.
#[derive(Clone, Copy, Debug)]
pub struct Rat {
    pub num: i64,
    pub den: i64,
}

/// The mathematical fraction held by a `Rat`, as a pair (numerator, denominator).
pub open spec fn frac(r: Rat) -> (int, int) {
    (r.num as int, r.den as int)
}

/// A well-formed fraction pair: positive denominator.
pub open spec fn f_wf(a: (int, int)) -> bool {
    a.1 >= 1
}

/// Equality of the rational values of two pairs (cross multiplication).
pub open spec fn f_eq(a: (int, int), b: (int, int)) -> bool {
    a.0 * b.1 == b.0 * a.1
}

/// `a <= b` on rational values (valid for positive denominators).
pub open spec fn f_le(a: (int, int), b: (int, int)) -> bool {
    a.0 * b.1 <= b.0 * a.1
}

/// `a < b` on rational values (valid for positive denominators).
pub open spec fn f_lt(a: (int, int), b: (int, int)) -> bool {
    a.0 * b.1 < b.0 * a.1
}

/// The pair denotes a strictly positive rational.
pub open spec fn f_pos(a: (int, int)) -> bool {
    a.0 > 0
}

/// The pair denotes a non-negative rational.
pub open spec fn f_nonneg(a: (int, int)) -> bool {
    a.0 >= 0
}

/// The pair denotes zero.
pub open spec fn f_zero(a: (int, int)) -> bool {
    a.0 == 0
}

/// Exact sum of two fraction pairs.
pub open spec fn f_add(a: (int, int), b: (int, int)) -> (int, int) {
    (a.0 * b.1 + b.0 * a.1, a.1 * b.1)
}

/// Exact difference of two fraction pairs.
pub open spec fn f_sub(a: (int, int), b: (int, int)) -> (int, int) {
    (a.0 * b.1 - b.0 * a.1, a.1 * b.1)
}

/// Exact product of two fraction pairs.
pub open spec fn f_mul(a: (int, int), b: (int, int)) -> (int, int) {
    (a.0 * b.0, a.1 * b.1)
}

/// Exact quotient of two fraction pairs; meaningful when `b.0 > 0`.
pub open spec fn f_div(a: (int, int), b: (int, int)) -> (int, int) {
    (a.0 * b.1, a.1 * b.0)
}

/// The pair fits the machine representation as stored (numerator and
/// denominator each within `i64`, denominator positive).
pub open spec fn fits(p: (int, int)) -> bool {
    &&& -(i64::MAX as int) <= p.0 <= i64::MAX as int
    &&& 1 <= p.1 <= i64::MAX as int
}

/// Euclid's greatest common divisor.
pub open spec fn gcd(a: nat, b: nat) -> nat
    decreases b,
{
    if b == 0 {
        a
    } else {
        gcd(b, a % b)
    }
}

/// Reduction of the exact pair `(n, d)` to machine words: divide both parts
/// by their greatest common divisor, then keep the result only if it fits
/// `i64`. This is precisely what the executable arithmetic does.
pub open spec fn norm(n: int, d: int) -> Option<(int, int)> {
    let m = if n >= 0 {
        n
    } else {
        -n
    };
    let g = gcd(m as nat, d as nat) as int;
    let q = m / g;
    let e = d / g;
    if q <= i64::MAX as int && e <= i64::MAX as int {
        Some(
            (
                if n >= 0 {
                    q
                } else {
                    -q
                },
                e,
            ),
        )
    } else {
        None
    }
}

/// Machine addition of two stored fractions: exact sum, then reduction.
pub open spec fn checked_add(a: (int, int), b: (int, int)) -> Option<(int, int)> {
    norm(a.0 * b.1 + b.0 * a.1, a.1 * b.1)
}

/// Machine subtraction of two stored fractions: exact difference, then reduction.
pub open spec fn checked_sub(a: (int, int), b: (int, int)) -> Option<(int, int)> {
    norm(a.0 * b.1 - b.0 * a.1, a.1 * b.1)
}

/// Machine multiplication of two stored fractions: exact product, then reduction.
pub open spec fn checked_mul(a: (int, int), b: (int, int)) -> Option<(int, int)> {
    norm(a.0 * b.0, a.1 * b.1)
}

/// Machine division of two stored fractions (divisor positive): exact
/// quotient, then reduction.
pub open spec fn checked_div(a: (int, int), b: (int, int)) -> Option<(int, int)> {
    norm(a.0 * b.1, a.1 * b.0)
}

/// The greatest common divisor divides both arguments and is positive when
/// either argument is.
pub proof fn lemma_gcd_divides(a: nat, b: nat)
    requires
        a >= 1 || b >= 1,
    ensures
        gcd(a, b) >= 1,
        a as int % (gcd(a, b) as int) == 0,
        b as int % (gcd(a, b) as int) == 0,
    decreases b,
{
    if b == 0 {
        let g = a as int;
        lemma_mod_multiples_basic(1, g);
        lemma_mod_multiples_basic(0, g);
    } else {
        lemma_mod_bound(a as int, b as int);
        lemma_gcd_divides(b, a % b);
        let g = gcd(b, a % b) as int;
        let r = (a % b) as int;
        lemma_fundamental_div_mod(a as int, b as int);
        lemma_fundamental_div_mod(b as int, g);
        lemma_fundamental_div_mod(r, g);
        let kb = b as int / g;
        let kr = r / g;
        let q = a as int / b as int;
        assert(a as int == g * (kb * q + kr)) by (nonlinear_arith)
            requires
                a as int == b as int * q + r,
                b as int == g * kb + 0,
                r == g * kr + 0,
        {}
        lemma_mod_multiples_basic(kb * q + kr, g);
        assert(g * (kb * q + kr) == (kb * q + kr) * g) by (nonlinear_arith) {}
    }
}

/// A reduced pair, when it exists, is well formed and denotes the same
/// rational as the exact pair it was reduced from.
pub proof fn lemma_norm_exact(n: int, d: int, c: (int, int))
    requires
        d >= 1,
        norm(n, d) == Some(c),
    ensures
        f_wf(c),
        f_eq(c, (n, d)),
{
    let m = if n >= 0 {
        n
    } else {
        -n
    };
    lemma_gcd_divides(m as nat, d as nat);
    let g = gcd(m as nat, d as nat) as int;
    let q = m / g;
    let e = d / g;
    lemma_fundamental_div_mod(m, g);
    lemma_fundamental_div_mod(d, g);
    assert(e >= 1) by (nonlinear_arith)
        requires
            d == g * e + 0,
            d >= 1,
            g >= 1,
    {}
    if n >= 0 {
        assert(q * d == n * e) by (nonlinear_arith)
            requires
                n == g * q + 0,
                d == g * e + 0,
        {}
    } else {
        assert((-q) * d == n * e) by (nonlinear_arith)
            requires
                -n == g * q + 0,
                d == g * e + 0,
        {}
    }
}

/// If the exact pair already fits the machine representation, reduction
/// cannot fail.
pub proof fn lemma_norm_fits(n: int, d: int)
    requires
        d >= 1,
        fits((n, d)),
    ensures
        norm(n, d) is Some,
{
    let m = if n >= 0 {
        n
    } else {
        -n
    };
    lemma_gcd_divides(m as nat, d as nat);
    let g = gcd(m as nat, d as nat) as int;
    lemma_fundamental_div_mod(m, g);
    lemma_fundamental_div_mod(d, g);
    let q = m / g;
    let e = d / g;
    assert(0 <= q <= m && 0 <= e <= d) by (nonlinear_arith)
        requires
            m == g * q + 0,
            d == g * e + 0,
            g >= 1,
            m >= 0,
            d >= 1,
    {}
}

/// The reduced result of `checked_add` equals the exact sum.
pub proof fn lemma_checked_add_exact(a: (int, int), b: (int, int), c: (int, int))
    requires
        f_wf(a),
        f_wf(b),
        checked_add(a, b) == Some(c),
    ensures
        f_wf(c),
        f_eq(c, f_add(a, b)),
{
    lemma_den_product(a.1, b.1);
    lemma_norm_exact(a.0 * b.1 + b.0 * a.1, a.1 * b.1, c);
}

/// `checked_add` succeeds whenever the exact sum fits the machine words.
pub proof fn lemma_checked_add_fits(a: (int, int), b: (int, int))
    requires
        f_wf(a),
        f_wf(b),
        fits(f_add(a, b)),
    ensures
        checked_add(a, b) is Some,
{
    lemma_den_product(a.1, b.1);
    lemma_norm_fits(a.0 * b.1 + b.0 * a.1, a.1 * b.1);
}

/// The reduced result of `checked_sub` equals the exact difference.
pub proof fn lemma_checked_sub_exact(a: (int, int), b: (int, int), c: (int, int))
    requires
        f_wf(a),
        f_wf(b),
        checked_sub(a, b) == Some(c),
    ensures
        f_wf(c),
        f_eq(c, f_sub(a, b)),
{
    lemma_den_product(a.1, b.1);
    lemma_norm_exact(a.0 * b.1 - b.0 * a.1, a.1 * b.1, c);
}

/// `checked_sub` succeeds whenever the exact difference fits the machine words.
pub proof fn lemma_checked_sub_fits(a: (int, int), b: (int, int))
    requires
        f_wf(a),
        f_wf(b),
        fits(f_sub(a, b)),
    ensures
        checked_sub(a, b) is Some,
{
    lemma_den_product(a.1, b.1);
    lemma_norm_fits(a.0 * b.1 - b.0 * a.1, a.1 * b.1);
}

/// The reduced result of `checked_mul` equals the exact product.
pub proof fn lemma_checked_mul_exact(a: (int, int), b: (int, int), c: (int, int))
    requires
        f_wf(a),
        f_wf(b),
        checked_mul(a, b) == Some(c),
    ensures
        f_wf(c),
        f_eq(c, f_mul(a, b)),
{
    lemma_den_product(a.1, b.1);
    lemma_norm_exact(a.0 * b.0, a.1 * b.1, c);
}

/// `checked_mul` succeeds whenever the exact product fits the machine words.
pub proof fn lemma_checked_mul_fits(a: (int, int), b: (int, int))
    requires
        f_wf(a),
        f_wf(b),
        fits(f_mul(a, b)),
    ensures
        checked_mul(a, b) is Some,
{
    lemma_den_product(a.1, b.1);
    lemma_norm_fits(a.0 * b.0, a.1 * b.1);
}

/// The reduced result of `checked_div` equals the exact quotient.
pub proof fn lemma_checked_div_exact(a: (int, int), b: (int, int), c: (int, int))
    requires
        f_wf(a),
        f_wf(b),
        f_pos(b),
        checked_div(a, b) == Some(c),
    ensures
        f_wf(c),
        f_eq(c, f_div(a, b)),
{
    lemma_den_product(a.1, b.0);
    lemma_norm_exact(a.0 * b.1, a.1 * b.0, c);
}

/// `checked_div` succeeds whenever the exact quotient fits the machine words.
pub proof fn lemma_checked_div_fits(a: (int, int), b: (int, int))
    requires
        f_wf(a),
        f_wf(b),
        f_pos(b),
        fits(f_div(a, b)),
    ensures
        checked_div(a, b) is Some,
{
    lemma_den_product(a.1, b.0);
    lemma_norm_fits(a.0 * b.1, a.1 * b.0);
}

/// Composing well-formed pairs yields well-formed pairs.
pub proof fn lemma_f_wf_ops(a: (int, int), b: (int, int))
    requires
        f_wf(a),
        f_wf(b),
    ensures
        f_wf(f_add(a, b)),
        f_wf(f_sub(a, b)),
        f_wf(f_mul(a, b)),
        f_pos(b) ==> f_wf(f_div(a, b)),
{
    assert(a.1 * b.1 >= 1 && (b.0 >= 1 ==> a.1 * b.0 >= 1)) by (nonlinear_arith)
        requires
            a.1 >= 1,
            b.1 >= 1,
    {}
}

/// Dividing by a positive rational and multiplying back restores the value.
pub proof fn lemma_f_div_mul_cancel(a: (int, int), b: (int, int))
    requires
        f_wf(a),
        f_wf(b),
        f_pos(b),
    ensures
        f_eq(f_mul(f_div(a, b), b), a),
{
    assert(((a.0 * b.1) * b.0) * a.1 == a.0 * ((a.1 * b.0) * b.1)) by (nonlinear_arith) {}
}

/// A product of non-negative rationals is non-negative.
pub proof fn lemma_f_mul_nonneg(a: (int, int), b: (int, int))
    requires
        f_wf(a),
        f_wf(b),
        f_nonneg(a),
        f_nonneg(b),
    ensures
        f_nonneg(f_mul(a, b)),
{
    assert(a.0 * b.0 >= 0) by (nonlinear_arith)
        requires
            a.0 >= 0,
            b.0 >= 0,
    {}
}

/// A quotient of a non-negative rational by a positive one is non-negative.
pub proof fn lemma_f_div_nonneg(a: (int, int), b: (int, int))
    requires
        f_wf(a),
        f_wf(b),
        f_nonneg(a),
        f_pos(b),
    ensures
        f_nonneg(f_div(a, b)),
{
    assert(a.0 * b.1 >= 0) by (nonlinear_arith)
        requires
            a.0 >= 0,
            b.1 >= 1,
    {}
}

/// A sum of non-negative rationals is non-negative.
pub proof fn lemma_f_add_nonneg(a: (int, int), b: (int, int))
    requires
        f_wf(a),
        f_wf(b),
        f_nonneg(a),
        f_nonneg(b),
    ensures
        f_nonneg(f_add(a, b)),
{
    assert(a.0 * b.1 + b.0 * a.1 >= 0) by (nonlinear_arith)
        requires
            a.0 >= 0,
            b.0 >= 0,
            a.1 >= 1,
            b.1 >= 1,
    {}
}

/// Rational-value equality is transitive.
pub proof fn lemma_f_eq_trans(a: (int, int), b: (int, int), c: (int, int))
    requires
        f_wf(a),
        f_wf(b),
        f_wf(c),
        f_eq(a, b),
        f_eq(b, c),
    ensures
        f_eq(a, c),
{
    assert(a.0 * c.1 == c.0 * a.1) by (nonlinear_arith)
        requires
            a.0 * b.1 == b.0 * a.1,
            b.0 * c.1 == c.0 * b.1,
            a.1 >= 1,
            b.1 >= 1,
            c.1 >= 1,
    {}
}

/// Addition respects rational-value equality.
pub proof fn lemma_f_eq_add(a: (int, int), a2: (int, int), b: (int, int), b2: (int, int))
    requires
        f_wf(a),
        f_wf(a2),
        f_wf(b),
        f_wf(b2),
        f_eq(a, a2),
        f_eq(b, b2),
    ensures
        f_eq(f_add(a, b), f_add(a2, b2)),
{
    assert((a.0 * b.1) * (a2.1 * b2.1) == (a2.0 * b2.1) * (a.1 * b.1)) by (nonlinear_arith)
        requires
            a.0 * a2.1 == a2.0 * a.1,
    {}
    assert((b.0 * a.1) * (a2.1 * b2.1) == (b2.0 * a2.1) * (a.1 * b.1)) by (nonlinear_arith)
        requires
            b.0 * b2.1 == b2.0 * b.1,
    {}
    assert((a.0 * b.1 + b.0 * a.1) * (a2.1 * b2.1) == (a2.0 * b2.1 + b2.0 * a2.1) * (a.1 * b.1))
        by (nonlinear_arith)
        requires
            (a.0 * b.1) * (a2.1 * b2.1) == (a2.0 * b2.1) * (a.1 * b.1),
            (b.0 * a.1) * (a2.1 * b2.1) == (b2.0 * a2.1) * (a.1 * b.1),
    {}
}

/// Subtraction respects rational-value equality.
pub proof fn lemma_f_eq_sub(a: (int, int), a2: (int, int), b: (int, int), b2: (int, int))
    requires
        f_wf(a),
        f_wf(a2),
        f_wf(b),
        f_wf(b2),
        f_eq(a, a2),
        f_eq(b, b2),
    ensures
        f_eq(f_sub(a, b), f_sub(a2, b2)),
{
    assert((a.0 * b.1) * (a2.1 * b2.1) == (a2.0 * b2.1) * (a.1 * b.1)) by (nonlinear_arith)
        requires
            a.0 * a2.1 == a2.0 * a.1,
    {}
    assert((b.0 * a.1) * (a2.1 * b2.1) == (b2.0 * a2.1) * (a.1 * b.1)) by (nonlinear_arith)
        requires
            b.0 * b2.1 == b2.0 * b.1,
    {}
    assert((a.0 * b.1 - b.0 * a.1) * (a2.1 * b2.1) == (a2.0 * b2.1 - b2.0 * a2.1) * (a.1 * b.1))
        by (nonlinear_arith)
        requires
            (a.0 * b.1) * (a2.1 * b2.1) == (a2.0 * b2.1) * (a.1 * b.1),
            (b.0 * a.1) * (a2.1 * b2.1) == (b2.0 * a2.1) * (a.1 * b.1),
    {}
}

/// Multiplication respects rational-value equality.
pub proof fn lemma_f_eq_mul(a: (int, int), a2: (int, int), b: (int, int), b2: (int, int))
    requires
        f_wf(a),
        f_wf(a2),
        f_wf(b),
        f_wf(b2),
        f_eq(a, a2),
        f_eq(b, b2),
    ensures
        f_eq(f_mul(a, b), f_mul(a2, b2)),
{
    assert((a.0 * b.0) * (a2.1 * b2.1) == (a2.0 * b2.0) * (a.1 * b.1)) by (nonlinear_arith)
        requires
            a.0 * a2.1 == a2.0 * a.1,
            b.0 * b2.1 == b2.0 * b.1,
    {}
}

/// Division by a positive rational respects rational-value equality.
pub proof fn lemma_f_eq_div(a: (int, int), a2: (int, int), b: (int, int), b2: (int, int))
    requires
        f_wf(a),
        f_wf(a2),
        f_wf(b),
        f_wf(b2),
        f_pos(b),
        f_pos(b2),
        f_eq(a, a2),
        f_eq(b, b2),
    ensures
        f_eq(f_div(a, b), f_div(a2, b2)),
{
    assert((a.0 * b.1) * (a2.1 * b2.0) == (a2.0 * b2.1) * (a.1 * b.0)) by (nonlinear_arith)
        requires
            a.0 * a2.1 == a2.0 * a.1,
            b.0 * b2.1 == b2.0 * b.1,
    {}
}

/// Order comparisons respect rational-value equality.
pub proof fn lemma_f_eq_le(a: (int, int), a2: (int, int), b: (int, int), b2: (int, int))
    requires
        f_wf(a),
        f_wf(a2),
        f_wf(b),
        f_wf(b2),
        f_eq(a, a2),
        f_eq(b, b2),
    ensures
        f_le(a, b) == f_le(a2, b2),
        f_lt(a, b) == f_lt(a2, b2),
{
    assert((a.0 * b.1 <= b.0 * a.1) == (a2.0 * b2.1 <= b2.0 * a2.1) && (a.0 * b.1 < b.0 * a.1) == (
    a2.0 * b2.1 < b2.0 * a2.1)) by (nonlinear_arith)
        requires
            a.0 * a2.1 == a2.0 * a.1,
            b.0 * b2.1 == b2.0 * b.1,
            a.1 >= 1,
            a2.1 >= 1,
            b.1 >= 1,
            b2.1 >= 1,
    {}
}

/// The sign of a rational is independent of its representation.
pub proof fn lemma_f_eq_sign(a: (int, int), b: (int, int))
    requires
        f_wf(a),
        f_wf(b),
        f_eq(a, b),
    ensures
        f_pos(a) == f_pos(b),
        f_zero(a) == f_zero(b),
        f_nonneg(a) == f_nonneg(b),
{
    assert(((a.0 > 0) == (b.0 > 0)) && ((a.0 == 0) == (b.0 == 0)) && ((a.0 >= 0) == (b.0 >= 0)))
        by (nonlinear_arith)
        requires
            a.0 * b.1 == b.0 * a.1,
            a.1 >= 1,
            b.1 >= 1,
    {}
}

proof fn lemma_den_product(x: int, y: int)
    requires
        x >= 1,
        y >= 1,
    ensures
        x * y >= 1,
{
    assert(x * y >= 1) by (nonlinear_arith)
        requires
            x >= 1,
            y >= 1,
    {}
}

proof fn lemma_num_den_product(a: int, b: int)
    requires
        -(0x8000_0000_0000_0000) <= a <= 0x7fff_ffff_ffff_ffff,
        1 <= b <= 0x7fff_ffff_ffff_ffff,
    ensures
        -(0x3fff_ffff_ffff_ffff_8000_0000_0000_0000) <= a * b
            <= 0x3fff_ffff_ffff_ffff_8000_0000_0000_0000,
{
    assert(-(0x3fff_ffff_ffff_ffff_8000_0000_0000_0000) <= a * b
        <= 0x3fff_ffff_ffff_ffff_8000_0000_0000_0000) by (nonlinear_arith)
        requires
            -(0x8000_0000_0000_0000) <= a <= 0x8000_0000_0000_0000,
            1 <= b <= 0x7fff_ffff_ffff_ffff,
    {}
}

proof fn lemma_i64_products(a: int, b: int)
    requires
        -(0x8000_0000_0000_0000) <= a <= 0x7fff_ffff_ffff_ffff,
        -(0x8000_0000_0000_0000) <= b <= 0x7fff_ffff_ffff_ffff,
    ensures
        -(0x4000_0000_0000_0000_0000_0000_0000_0000) <= a * b
            <= 0x4000_0000_0000_0000_0000_0000_0000_0000,
{
    assert(-(0x4000_0000_0000_0000_0000_0000_0000_0000) <= a * b
        <= 0x4000_0000_0000_0000_0000_0000_0000_0000) by (nonlinear_arith)
        requires
            -(0x8000_0000_0000_0000) <= a <= 0x8000_0000_0000_0000,
            -(0x8000_0000_0000_0000) <= b <= 0x8000_0000_0000_0000,
    {}
}

fn gcd_exec(a: u128, b: u128) -> (g: u128)
    requires
        b >= 1,
    ensures
        g >= 1,
        g as nat == gcd(a as nat, b as nat),
{
    let mut x: u128 = a;
    let mut y: u128 = b;
    while y != 0
        invariant
            gcd(x as nat, y as nat) == gcd(a as nat, b as nat),
            x >= 1 || y >= 1,
        decreases y,
    {
        let r: u128 = x % y;
        x = y;
        y = r;
    }
    x
}

fn normalize(n: i128, d: i128) -> (r: Option<Rat>)
    requires
        1 <= d,
        -(0x7fff_ffff_ffff_ffff_ffff_ffff_ffff_ffff) <= n,
    ensures
        (r is Some) == (norm(n as int, d as int) is Some),
        r matches Some(c) ==> c.wf() && norm(n as int, d as int) == Some(frac(c)),
{
    let neg: bool = n < 0;
    let m: u128 = if neg {
        (-n) as u128
    } else {
        n as u128
    };
    let g: u128 = gcd_exec(m, d as u128);
    proof {
        lemma_gcd_divides(m as nat, d as nat);
        lemma_fundamental_div_mod(m as int, g as int);
        lemma_fundamental_div_mod(d as int, g as int);
    }
    let q: u128 = m / g;
    let e: u128 = (d as u128) / g;
    if q <= 0x7fff_ffff_ffff_ffff && e <= 0x7fff_ffff_ffff_ffff {
        proof {
            assert(e >= 1) by (nonlinear_arith)
                requires
                    d as int == g as int * (e as int) + 0,
                    d >= 1,
                    g >= 1,
            {}
        }
        let num: i64 = if neg {
            -(q as i64)
        } else {
            q as i64
        };
        Some(Rat { num, den: e as i64 })
    } else {
        None
    }
}

impl Rat {
    /// Well-formedness: the denominator is positive.
    pub open spec fn wf(self) -> bool {
        self.den >= 1
    }

    /// Builds the fraction `num / den`.
    pub fn new(num: i64, den: i64) -> (r: Rat)
        requires
            den >= 1,
        ensures
            r.wf(),
            frac(r) == (num as int, den as int),
    {
        Rat { num, den }
    }

    /// Builds the whole number `v`.
    pub fn from_int(v: i64) -> (r: Rat)
        ensures
            r.wf(),
            frac(r) == (v as int, 1int),
    {
        Rat { num: v, den: 1 }
    }

    /// Exact addition; `None` only if even the reduced sum leaves `i64`.
    pub fn add(&self, other: &Rat) -> (r: Option<Rat>)
        requires
            self.wf(),
            other.wf(),
        ensures
            (r is Some) == (checked_add(frac(*self), frac(*other)) is Some),
            r matches Some(c) ==> c.wf() && checked_add(frac(*self), frac(*other)) == Some(
                frac(c),
            ),
    {
        proof {
            lemma_num_den_product(self.num as int, other.den as int);
            lemma_num_den_product(other.num as int, self.den as int);
            lemma_den_product(self.den as int, other.den as int);
            lemma_i64_products(self.den as int, other.den as int);
        }
        let n: i128 = (self.num as i128) * (other.den as i128) + (other.num as i128) * (self.den
            as i128);
        let d: i128 = (self.den as i128) * (other.den as i128);
        normalize(n, d)
    }

    /// Exact subtraction; `None` only if even the reduced difference leaves `i64`.
    pub fn sub(&self, other: &Rat) -> (r: Option<Rat>)
        requires
            self.wf(),
            other.wf(),
        ensures
            (r is Some) == (checked_sub(frac(*self), frac(*other)) is Some),
            r matches Some(c) ==> c.wf() && checked_sub(frac(*self), frac(*other)) == Some(
                frac(c),
            ),
    {
        proof {
            lemma_num_den_product(self.num as int, other.den as int);
            lemma_num_den_product(other.num as int, self.den as int);
            lemma_den_product(self.den as int, other.den as int);
            lemma_i64_products(self.den as int, other.den as int);
        }
        let n: i128 = (self.num as i128) * (other.den as i128) - (other.num as i128) * (self.den
            as i128);
        let d: i128 = (self.den as i128) * (other.den as i128);
        normalize(n, d)
    }

    /// Exact multiplication; `None` only if even the reduced product leaves `i64`.
    pub fn mul(&self, other: &Rat) -> (r: Option<Rat>)
        requires
            self.wf(),
            other.wf(),
        ensures
            (r is Some) == (checked_mul(frac(*self), frac(*other)) is Some),
            r matches Some(c) ==> c.wf() && checked_mul(frac(*self), frac(*other)) == Some(
                frac(c),
            ),
    {
        proof {
            lemma_i64_products(self.num as int, other.num as int);
            lemma_den_product(self.den as int, other.den as int);
            lemma_i64_products(self.den as int, other.den as int);
        }
        let n: i128 = (self.num as i128) * (other.num as i128);
        let d: i128 = (self.den as i128) * (other.den as i128);
        normalize(n, d)
    }

    /// Exact division by a strictly positive rational; `None` only if even
    /// the reduced quotient leaves `i64`.
    pub fn div(&self, other: &Rat) -> (r: Option<Rat>)
        requires
            self.wf(),
            other.wf(),
            f_pos(frac(*other)),
        ensures
            (r is Some) == (checked_div(frac(*self), frac(*other)) is Some),
            r matches Some(c) ==> c.wf() && checked_div(frac(*self), frac(*other)) == Some(
                frac(c),
            ),
    {
        proof {
            lemma_i64_products(self.num as int, other.den as int);
            lemma_den_product(self.den as int, other.num as int);
            lemma_i64_products(self.den as int, other.num as int);
        }
        let n: i128 = (self.num as i128) * (other.den as i128);
        let d: i128 = (self.den as i128) * (other.num as i128);
        normalize(n, d)
    }

    /// `self <= other` on the rational values.
    pub fn le(&self, other: &Rat) -> (r: bool)
        requires
            self.wf(),
            other.wf(),
        ensures
            r == f_le(frac(*self), frac(*other)),
    {
        proof {
            lemma_i64_products(self.num as int, other.den as int);
            lemma_i64_products(other.num as int, self.den as int);
        }
        (self.num as i128) * (other.den as i128) <= (other.num as i128) * (self.den as i128)
    }

    /// `self < other` on the rational values.
    pub fn lt(&self, other: &Rat) -> (r: bool)
        requires
            self.wf(),
            other.wf(),
        ensures
            r == f_lt(frac(*self), frac(*other)),
    {
        proof {
            lemma_i64_products(self.num as int, other.den as int);
            lemma_i64_products(other.num as int, self.den as int);
        }
        (self.num as i128) * (other.den as i128) < (other.num as i128) * (self.den as i128)
    }

    /// Value equality of two rationals (independent of representation).
    pub fn equals(&self, other: &Rat) -> (r: bool)
        requires
            self.wf(),
            other.wf(),
        ensures
            r == f_eq(frac(*self), frac(*other)),
    {
        proof {
            lemma_i64_products(self.num as int, other.den as int);
            lemma_i64_products(other.num as int, self.den as int);
        }
        (self.num as i128) * (other.den as i128) == (other.num as i128) * (self.den as i128)
    }

    /// The value is strictly positive.
    pub fn is_positive(&self) -> (r: bool)
        ensures
            r == f_pos(frac(*self)),
    {
        self.num > 0
    }

    /// The value is zero.
    pub fn is_zero(&self) -> (r: bool)
        ensures
            r == f_zero(frac(*self)),
    {
        self.num == 0
    }
}

} // verus!
