use vstd::prelude::*;
use vstd::arithmetic::div_mod::{
    lemma_div_is_ordered, lemma_div_multiples_vanish, lemma_div_pos_is_pos,
    lemma_multiply_divide_le, lemma_multiply_divide_lt,
};
use vstd::arithmetic::mul::{
    lemma_mul_inequality, lemma_mul_is_commutative, lemma_mul_is_distributive_add,
    lemma_mul_left_inequality, lemma_mul_nonnegative, lemma_mul_upper_bound,
};

verus! {

/// Tolerance, in basis points, substituted when a user's record is unset.
pub const DEFAULT_SLIPPAGE_BPS: u16 = 500;

/// A tolerance in basis points is valid when it lies in `(0, 500]`:
/// strictly positive and at most 5%.
pub open spec fn valid_bps(bps: u16) -> bool {
    0 < bps <= 500
}

/// The slippage bound as a mathematical integer.
///
/// When the caller fixes the input side (`is_base_input`), the bound is the
/// least acceptable counter-amount: the expectation scaled down by the
/// tolerance, with truncating division so rounding never weakens the bound.
/// Otherwise the bound is the greatest acceptable input: the expectation
/// scaled up by the tolerance.
pub open spec fn threshold_math(expected: int, bps: int, is_base_input: bool) -> int {
    if is_base_input {
        expected * (10000 - bps) / 10000
    } else {
        expected * (10000 + bps) / 10000
    }
}

/// The slippage bound as the 64-bit quantity handed to the execution
/// engine: the mathematical bound reduced modulo `2^64`, as the narrowing
/// at the end of the computation leaves it. Scaling down never exceeds the
/// expectation, so the reduction only matters when scaling up overflows
/// 64 bits.
pub open spec fn threshold_spec(expected: u64, bps: u16, is_base_input: bool) -> u64 {
    (threshold_math(expected as int, bps as int, is_base_input) % 0x1_0000_0000_0000_0000) as u64
}

/// Converts an expected amount, a validated tolerance, and a trade
/// direction into the protective bound forwarded to the execution engine.
///
/// The multiplication is carried out in 128 bits, so the intermediate
/// product cannot overflow; the caller is responsible for having validated
/// `bps` to `(0, 500]`.
pub fn compute_slippage_threshold(expected: u64, bps: u16, is_base_input: bool) -> (r: u64)
    requires
        valid_bps(bps),
    ensures
        r == threshold_spec(expected, bps, is_base_input),
{
    if is_base_input {
        proof {
            lemma_mul_upper_bound(expected as int, u64::MAX as int, 10000 - bps as int, 10000);
        }
        let wide: u128 = (expected as u128) * (10_000u128 - bps as u128);
        let q: u128 = wide / 10_000u128;
        proof {
            lemma_threshold_fits(expected, bps);
        }
        q as u64
    } else {
        proof {
            lemma_mul_upper_bound(expected as int, u64::MAX as int, 10000 + bps as int, 20000);
            lemma_mul_nonnegative(expected as int, 10000 + bps as int);
        }
        let wide: u128 = (expected as u128) * (10_000u128 + bps as u128);
        let q: u128 = wide / 10_000u128;
        (q % 0x1_0000_0000_0000_0000u128) as u64
    }
}

/// With the input side fixed the bound never exceeds the expectation, so it
/// always fits in 64 bits and the reduction modulo `2^64` leaves it
/// unchanged.
pub proof fn lemma_threshold_fits(expected: u64, bps: u16)
    requires
        valid_bps(bps),
    ensures
        threshold_math(expected as int, bps as int, true)
            == threshold_spec(expected, bps, true),
        0 <= threshold_math(expected as int, bps as int, true) <= expected,
{
    let e: int = expected as int;
    let b: int = bps as int;
    lemma_mul_inequality(10000 - b, 10000, e);
    lemma_mul_is_commutative(e, 10000 - b);
    lemma_mul_is_commutative(e, 10000);
    lemma_multiply_divide_le(e * (10000 - b), 10000, e);
    lemma_mul_nonnegative(e, 10000 - b);
    lemma_div_pos_is_pos(e * (10000 - b), 10000);
}

/// Law: the bound is strictly protective. For a positive expectation and a
/// valid tolerance, fixing the input side yields a bound strictly below the
/// expectation, and fixing the output side yields a mathematical bound at
/// least the expectation — strictly above it as soon as the scaled
/// tolerance `expected * bps` reaches one whole denominator unit.
pub proof fn lemma_threshold_protective(expected: u64, bps: u16)
    requires
        expected > 0,
        valid_bps(bps),
    ensures
        threshold_spec(expected, bps, true) < expected,
        threshold_math(expected as int, bps as int, true) == threshold_spec(expected, bps, true),
        threshold_math(expected as int, bps as int, false) >= expected,
        threshold_math(expected as int, bps as int, false) <= u64::MAX ==> threshold_spec(
            expected,
            bps,
            false,
        ) >= expected,
        expected * bps >= 10000 ==> threshold_math(expected as int, bps as int, false) > expected,
{
    let e: int = expected as int;
    let b: int = bps as int;
    lemma_threshold_fits(expected, bps);
    // Scaling down: e * (10000 - b) < 10000 * e, so the quotient is below e.
    lemma_mul_left_inequality(e, 10000 - b, 10000);
    lemma_mul_is_commutative(e, 10000);
    lemma_multiply_divide_lt(e * (10000 - b), 10000, e);
    // Scaling up: e * 10000 <= e * (10000 + b), and dividing a whole
    // multiple of the denominator gives back at least e.
    lemma_mul_left_inequality(e, 10000, 10000 + b);
    lemma_div_is_ordered(e * 10000, e * (10000 + b), 10000);
    lemma_div_multiples_vanish(e, 10000);
    if e * b >= 10000 {
        // Then e * (10000 + b) >= (e + 1) * 10000, so the quotient is
        // strictly above e.
        lemma_mul_is_distributive_add(e, 10000, b);
        lemma_div_is_ordered((e + 1) * 10000, e * (10000 + b), 10000);
        lemma_div_multiples_vanish(e + 1, 10000);
    }
}

/// Law: the bound moves with the tolerance in the protective direction.
/// With the input side fixed, a larger tolerance never raises the minimum
/// acceptable counter-amount; with the output side fixed, a larger
/// tolerance never lowers the mathematical maximum acceptable input. The
/// 64-bit bounds agree whenever the larger scaled-up bound still fits in
/// 64 bits.
pub proof fn lemma_threshold_monotonic(expected: u64, lo: u16, hi: u16)
    requires
        valid_bps(lo),
        valid_bps(hi),
        lo <= hi,
    ensures
        threshold_spec(expected, lo, true) >= threshold_spec(expected, hi, true),
        threshold_math(expected as int, lo as int, false)
            <= threshold_math(expected as int, hi as int, false),
        threshold_math(expected as int, hi as int, false) <= u64::MAX
            ==> threshold_spec(expected, lo, false) <= threshold_spec(expected, hi, false),
{
    let e: int = expected as int;
    let l: int = lo as int;
    let h: int = hi as int;
    lemma_mul_inequality(10000 - h, 10000 - l, e);
    lemma_mul_is_commutative(e, 10000 - h);
    lemma_mul_is_commutative(e, 10000 - l);
    lemma_div_is_ordered(e * (10000 - h), e * (10000 - l), 10000);
    lemma_mul_inequality(10000 + l, 10000 + h, e);
    lemma_mul_is_commutative(e, 10000 + l);
    lemma_mul_is_commutative(e, 10000 + h);
    lemma_div_is_ordered(e * (10000 + l), e * (10000 + h), 10000);
    lemma_threshold_fits(expected, lo);
    lemma_threshold_fits(expected, hi);
    lemma_mul_nonnegative(e, 10000 + l);
    lemma_div_pos_is_pos(e * (10000 + l), 10000);
}

} // verus!
