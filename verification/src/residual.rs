//! Splitting an accumulated motion into whole glyph steps and a residual.

use vstd::prelude::*;
use vstd::arithmetic::div_mod::{lemma_fundamental_div_mod, lemma_fundamental_div_mod_converse};
use vstd::arithmetic::div_mod::lemma_mod_bound;
use crate::fixed::{magnitude, quotient};

verus! {

/// The signed number of whole glyphs that `accum` holds.
pub open spec fn whole_steps(accum: i64, glyph: i64) -> int
    recommends
        glyph > 0,
{
    quotient(accum as int, glyph as int)
}

/// What is left of `accum` once its whole glyphs are taken out.
pub open spec fn residual(accum: i64, glyph: i64) -> i64
    recommends
        glyph > 0,
{
    (accum - whole_steps(accum, glyph) * glyph) as i64
}

/// The residual is strictly smaller than one glyph, points the way of the
/// accumulated motion, and together with the whole steps makes it up again.
pub proof fn lemma_residual_bounded(accum: i64, glyph: i64)
    requires
        glyph > 0,
    ensures
        accum == whole_steps(accum, glyph) * glyph + residual(accum, glyph),
        magnitude(residual(accum, glyph) as int) < glyph,
        accum >= 0 ==> residual(accum, glyph) >= 0 && whole_steps(accum, glyph) >= 0,
        accum <= 0 ==> residual(accum, glyph) <= 0 && whole_steps(accum, glyph) <= 0,
        magnitude(accum as int) < glyph ==> whole_steps(accum, glyph) == 0,
{
    let m = magnitude(accum as int);
    let g = glyph as int;
    lemma_fundamental_div_mod(m, g);
    lemma_mod_bound(m, g);
    let q = m / g;
    assert(g * q == q * g) by (nonlinear_arith);
    assert(0 <= q) by (nonlinear_arith)
        requires
            m >= 0,
            g > 0,
            q == m / g,
    ;
    if accum < 0 {
        assert((-q) * g == -(q * g)) by (nonlinear_arith);
    }
    if m < g {
        assert(q == 0) by (nonlinear_arith)
            requires
                0 <= m < g,
                q == m / g,
        ;
    }
}

/// A split into whole steps and a residual that is smaller than one glyph
/// and points the way of the accumulated motion is the only such split.
pub proof fn lemma_split_unique(accum: i64, glyph: i64, steps: int, rest: int)
    requires
        glyph > 0,
        accum == steps * glyph + rest,
        magnitude(rest) < glyph,
        accum >= 0 ==> rest >= 0,
        accum <= 0 ==> rest <= 0,
    ensures
        steps == whole_steps(accum, glyph),
        rest == residual(accum, glyph),
{
    let g = glyph as int;
    if accum >= 0 {
        lemma_fundamental_div_mod_converse(accum as int, g, steps, rest);
    } else {
        assert(-accum == (-steps) * g + (-rest)) by (nonlinear_arith)
            requires
                accum == steps * g + rest,
        ;
        lemma_fundamental_div_mod_converse(-accum, g, -steps, -rest);
    }
    assert(whole_steps(accum, glyph) * g == steps * g) by (nonlinear_arith)
        requires
            whole_steps(accum, glyph) == steps,
    ;
}

} // verus!
