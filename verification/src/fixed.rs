use vstd::arithmetic::div_mod::{lemma_div_is_ordered, lemma_div_multiples_vanish};
use vstd::prelude::*;

verus! {

/// Amounts, rates, volatilities and standard-normal draws are fixed-point
/// numbers counted in millionths: `SCALE` stands for 1.0.
pub const SCALE: i64 = 1_000_000;

/// The value nearest to `x` that an `i64` can hold.
pub open spec fn saturated(x: int) -> int {
    if x < i64::MIN as int {
        i64::MIN as int
    } else if x > i64::MAX as int {
        i64::MAX as int
    } else {
        x
    }
}

/// The product of a quantity and a fixed-point factor, rounded down.
pub open spec fn scaled_product(quantity: int, factor: int) -> int {
    (quantity * factor) / (SCALE as int)
}

/// Whether `factor` is the sum or the difference of one and something an
/// `i64` can hold.
pub open spec fn is_factor(factor: int) -> bool {
    -0x8000_0000_0000_0000 - SCALE as int <= factor <= 0x8000_0000_0000_0000 + SCALE as int
}

/// A product is no larger than the product of its factors' bounds.
pub proof fn lemma_product_within(a: int, b: int, a_bound: int, b_bound: int)
    by (nonlinear_arith)
    requires
        -a_bound <= a <= a_bound,
        -b_bound <= b <= b_bound,
    ensures
        -(a_bound * b_bound) <= a * b <= a_bound * b_bound,
{
}

/// What lies between two multiples of a divisor has its quotient between
/// the two multipliers.
pub proof fn lemma_quotient_within(x: int, divisor: int, low: int, high: int)
    requires
        divisor > 0,
        divisor * low <= x <= divisor * high,
    ensures
        low <= x / divisor <= high,
{
    lemma_div_is_ordered(divisor * low, x, divisor);
    lemma_div_is_ordered(x, divisor * high, divisor);
    lemma_div_multiples_vanish(low, divisor);
    lemma_div_multiples_vanish(high, divisor);
}

/// Brings `x` into the range of an `i64`.
pub(crate) fn saturate(x: i128) -> (r: i64)
    ensures
        r as int == saturated(x as int),
{
    if x < i64::MIN as i128 {
        i64::MIN
    } else if x > i64::MAX as i128 {
        i64::MAX
    } else {
        x as i64
    }
}

/// Multiplies a quantity by a fixed-point factor and rounds down.
pub(crate) fn scale_product(quantity: i64, factor: i128) -> (r: i128)
    requires
        is_factor(factor as int),
    ensures
        r as int == scaled_product(quantity as int, factor as int),
        -0x8000_0000_0000_0000_0000_0000_0000 <= r <= 0x8000_0000_0000_0000_0000_0000_0000,
{
    proof {
        lemma_product_within(
            quantity as int,
            factor as int,
            0x8000_0000_0000_0000,
            0x8000_0000_0000_0000 + 1_000_000int,
        );
    }
    let product: i128 = quantity as i128 * factor;
    // The quotient by a positive constant always exists.
    match product.checked_div_euclid(SCALE as i128) {
        Some(quotient) => quotient,
        None => 0,
    }
}

} // verus!
