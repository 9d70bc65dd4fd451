//! Global laws of the fee model, stated and proved over the exact
//! rational arithmetic.

use crate::rational::{f_add, f_div, f_eq, f_lt, f_mul, f_nonneg, f_sub, f_wf, f_zero};
use vstd::prelude::*;

verus! {

/// Law: for a percentage fee rate `p` in [0, 1) and any stake `s`, the
/// grossed-up fee `f = s * p / (1 - p)` satisfies `f == (s + f) * p` — the
/// fee is exactly the fraction `p` of the total outlay `s + f`, not of the
/// stake alone.
pub proof fn lemma_fee_round_trip(s: (int, int), p: (int, int))
    requires
        f_wf(s),
        f_wf(p),
        f_nonneg(p),
        f_lt(p, (1int, 1int)),
    ensures
        ({
            let f = f_div(f_mul(s, p), f_sub((1int, 1int), p));
            f_eq(f, f_mul(f_add(s, f), p))
        }),
{
    let f = f_div(f_mul(s, p), f_sub((1int, 1int), p));
    let a = s.0;
    let b = s.1;
    let c = p.0;
    let d = p.1;
    let f0 = (a * c) * d;
    let f1 = (b * d) * (d - c);
    assert(f.0 == f0 && f.1 == f1);
    assert(a * f1 + f0 * b == ((a * b) * d) * d) by (nonlinear_arith)
        requires
            f0 == (a * c) * d,
            f1 == (b * d) * (d - c),
    {}
    let s1 = a * f1 + f0 * b;
    assert((s1 * c) * f1 == ((((a * b) * d) * d) * c) * f1) by (nonlinear_arith)
        requires
            s1 == ((a * b) * d) * d,
    {}
    assert(f0 * ((b * f1) * d) == ((((a * b) * d) * d) * c) * f1) by (nonlinear_arith)
        requires
            f0 == (a * c) * d,
    {}
    assert(f0 * ((b * f1) * d) == (s1 * c) * f1);
    assert(f_eq(f, f_mul(f_add(s, f), p)));
}

/// Law: a zero stake yields a zero grossed-up percentage fee, so a
/// degenerate buy stays degenerate: no cash can leave the account through
/// the fee alone.
pub proof fn lemma_zero_stake_zero_fee(s: (int, int), p: (int, int))
    requires
        f_wf(s),
        f_wf(p),
        f_zero(s),
        f_nonneg(p),
        f_lt(p, (1int, 1int)),
    ensures
        f_zero(f_div(f_mul(s, p), f_sub((1int, 1int), p))),
{
    assert((s.0 * p.0) * (1 * p.1) == 0) by (nonlinear_arith)
        requires
            s.0 == 0,
    {}
}

} // verus!
