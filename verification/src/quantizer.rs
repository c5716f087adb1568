//! Position quantizer: rounds a signed angle to the nearest multiple of the
//! quarter-turn quantum (1024 encoder counts), rounding the magnitude on its
//! own and preserving the sign, with ties rounding away from zero.

use vstd::prelude::*;

verus! {

/// Nearest multiple of the quantum for a nonnegative magnitude; a remainder
/// of exactly half a quantum rounds up.
pub open spec fn spec_quantize_nonneg(m: int) -> int
    recommends
        m >= 0,
{
    if m % 1024 >= 512 {
        (m / 1024 + 1) * 1024
    } else {
        (m / 1024) * 1024
    }
}

/// Nearest multiple of the quantum: the magnitude is rounded independently
/// of the sign, so ties round away from zero.
pub open spec fn spec_quantize(x: int) -> int {
    if x >= 0 {
        spec_quantize_nonneg(x)
    } else {
        -spec_quantize_nonneg(-x)
    }
}

/// The angles whose rounded value still fits in a 32-bit signed integer:
/// everything except the topmost half-quantum of the positive range, which
/// would round up past the signed maximum.
pub open spec fn quantize_fits(x: int) -> bool {
    x < 0x7fff_fe00
}

proof fn lemma_quantize_nonneg_bounds(m: int)
    requires
        m >= 0,
    ensures
        m - 512 < spec_quantize_nonneg(m) <= m + 512,
        spec_quantize_nonneg(m) >= 0,
        spec_quantize_nonneg(m) % 1024 == 0,
{
    let k = m / 1024;
    vstd::arithmetic::div_mod::lemma_fundamental_div_mod(m, 1024);
    vstd::arithmetic::div_mod::lemma_mod_bound(m, 1024);
    vstd::arithmetic::div_mod::lemma_div_pos_is_pos(m, 1024);
    vstd::arithmetic::div_mod::lemma_mod_multiples_basic(k, 1024);
    vstd::arithmetic::div_mod::lemma_mod_multiples_basic(k + 1, 1024);
}

/// Rounding moves an angle by at most half a quantum, lands on a multiple of
/// the quantum, and keeps the sign.
pub proof fn lemma_quantize_bounds(x: int)
    ensures
        x - 512 <= spec_quantize(x) <= x + 512,
        spec_quantize(x) % 1024 == 0,
        x >= 0 ==> spec_quantize(x) >= 0,
        x <= 0 ==> spec_quantize(x) <= 0,
{
    if x >= 0 {
        lemma_quantize_nonneg_bounds(x);
    } else {
        lemma_quantize_nonneg_bounds(-x);
        lemma_negated_multiple(spec_quantize_nonneg(-x));
    }
}

proof fn lemma_negated_multiple(q: int)
    requires
        q % 1024 == 0,
    ensures
        (-q) % 1024 == 0,
{
    vstd::arithmetic::div_mod::lemma_fundamental_div_mod(q, 1024);
    vstd::arithmetic::div_mod::lemma_mod_multiples_basic(-(q / 1024), 1024);
}

proof fn lemma_quantize_nonneg_multiple(m: int)
    requires
        m >= 0,
        m % 1024 == 0,
    ensures
        spec_quantize_nonneg(m) == m,
{
    vstd::arithmetic::div_mod::lemma_fundamental_div_mod(m, 1024);
}

/// Quantizing is idempotent: a value already on the grid stays put.
pub proof fn lemma_quantize_idempotent(x: int)
    ensures
        spec_quantize(spec_quantize(x)) == spec_quantize(x),
{
    let q = spec_quantize(x);
    lemma_quantize_bounds(x);
    if q >= 0 {
        lemma_quantize_nonneg_multiple(q);
    } else {
        lemma_negated_multiple(q);
        lemma_quantize_nonneg_multiple(-q);
    }
}

/// Quantizing commutes with negation: rounding the magnitude on its own
/// makes the result symmetric around zero.
pub proof fn lemma_quantize_symmetric(x: int)
    ensures
        spec_quantize(-x) == -spec_quantize(x),
{
}

/// An angle within half the signed range less half a quantum rounds to a
/// multiple of the quantum within half the signed range less a whole one:
/// the next multiple out would overshoot the angle by more than half a
/// quantum.
pub proof fn lemma_quantize_in_range(x: int)
    requires
        -0x7fff_f9ff <= x <= 0x7fff_f9ff,
    ensures
        -0x7fff_f800 <= spec_quantize(x) <= 0x7fff_f800,
        quantize_fits(x),
{
    let q = spec_quantize(x);
    lemma_quantize_bounds(x);
    vstd::arithmetic::div_mod::lemma_fundamental_div_mod(q, 1024);
}

/// Quantize one signed angle to the nearest multiple of the quantum.
pub fn quantize(x: i32) -> (r: i32)
    requires
        quantize_fits(x as int),
    ensures
        r as int == spec_quantize(x as int),
{
    let negative = x < 0;
    let m: u32 = if negative {
        (-(x as i64)) as u32
    } else {
        x as u32
    };
    proof {
        vstd::arithmetic::div_mod::lemma_fundamental_div_mod(m as int, 1024);
        vstd::arithmetic::div_mod::lemma_mod_bound(m as int, 1024);
        vstd::arithmetic::div_mod::lemma_div_pos_is_pos(m as int, 1024);
    }
    let k: u32 = m / 1024;
    let rem: u32 = m % 1024;
    let mag: u32 = if rem >= 512 {
        (k + 1) * 1024
    } else {
        k * 1024
    };
    if negative {
        (-(mag as i64)) as i32
    } else {
        mag as i32
    }
}

/// Quantize a vector of signed angles element by element.
pub fn calculate_nearest_rounded_positions(pos: &Vec<i32>) -> (r: Vec<i32>)
    requires
        forall|i: int| 0 <= i < pos@.len() ==> quantize_fits(pos@[i] as int),
    ensures
        r@.len() == pos@.len(),
        forall|i: int| 0 <= i < pos@.len() ==> r@[i] as int == spec_quantize(pos@[i] as int),
{
    let mut out: Vec<i32> = Vec::new();
    let mut idx: usize = 0;
    while idx < pos.len()
        invariant
            idx <= pos@.len(),
            out@.len() == idx,
            forall|i: int| 0 <= i < pos@.len() ==> quantize_fits(pos@[i] as int),
            forall|i: int| 0 <= i < idx ==> out@[i] as int == spec_quantize(pos@[i] as int),
        decreases pos@.len() - idx,
    {
        let q = quantize(pos[idx]);
        out.push(q);
        idx = idx + 1;
    }
    out
}

} // verus!
