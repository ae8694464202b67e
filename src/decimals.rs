use vstd::prelude::*;
use vstd::arithmetic::div_mod::{
    lemma_div_multiples_vanish,
    lemma_fundamental_div_mod,
    lemma_mod_multiples_basic,
};
use crate::text::fits_i64;

verus! {

/// Decimal precision of the native coin.
pub const NATIVE_DECIMALS: i64 = 8;

/// Decimal precision of bridged amounts.
pub const BRIDGED_DECIMALS: i64 = 6;

/// Ten to the power `e`.
pub open spec fn pow10(e: nat) -> int
    decreases e,
{
    if e == 0 {
        1
    } else {
        10 * pow10((e - 1) as nat)
    }
}

/// The exponents for which a scale factor is known: 0 and 2 through 10.
pub open spec fn supported_exponent(e: int) -> bool {
    e == 0 || (2 <= e <= 10)
}

/// The scale factor for exponent `e`, or 0 where none is known.
pub open spec fn scale_factor(e: int) -> int {
    if supported_exponent(e) {
        pow10(e as nat)
    } else {
        0
    }
}

pub open spec fn abs(x: int) -> int {
    if x < 0 {
        -x
    } else {
        x
    }
}

/// Integer division rounded toward zero.
pub open spec fn div_trunc(a: int, d: int) -> int {
    if a >= 0 {
        a / d
    } else {
        -((-a) / d)
    }
}

/// Whether amounts can be moved from one precision to the other.
pub open spec fn renormalizable(source: int, target: int) -> bool {
    supported_exponent(abs(source - target))
}

/// `amount` moved from `source` decimals to `target` decimals: divided by the
/// scale factor, rounding toward zero, when precision drops; multiplied by it
/// when precision grows.
pub open spec fn renormalize(amount: int, source: int, target: int) -> int {
    if source >= target {
        div_trunc(amount, pow10((source - target) as nat))
    } else {
        amount * pow10((target - source) as nat)
    }
}

proof fn lemma_pow10_positive(e: nat)
    ensures
        pow10(e) > 0,
    decreases e,
{
    if e > 0 {
        lemma_pow10_positive((e - 1) as nat);
    }
}

/// The scale factor `10^pow` for the exponents this bridge uses; 0 for any other.
pub fn pow_10(pow: i64) -> (r: i64)
    ensures
        r == scale_factor(pow as int),
        0 <= r <= 10_000_000_000,
{
    proof {
        reveal_with_fuel(pow10, 11);
    }
    match pow {
        0 => 1,
        2 => 100,
        3 => 1000,
        4 => 10000,
        5 => 100000,
        6 => 1000000,
        7 => 10000000,
        8 => 100000000,
        9 => 1000000000,
        10 => 10000000000,
        _ => 0,
    }
}

/// Moves `amount` from `source_decimals` to `target_decimals` precision.
/// `None` when no scale factor is known for the difference, or when the
/// result does not fit in an `i64`.
pub fn normalize_decimals(amount: i64, source_decimals: i64, target_decimals: i64) -> (r: Option<
    i64,
>)
    ensures
        r is Some <==> renormalizable(source_decimals as int, target_decimals as int) && fits_i64(
            renormalize(amount as int, source_decimals as int, target_decimals as int),
        ),
        r matches Some(v) ==> v == renormalize(
            amount as int,
            source_decimals as int,
            target_decimals as int,
        ),
{
    let diff: i128 = source_decimals as i128 - target_decimals as i128;
    let exponent: i128 = if diff < 0 { -diff } else { diff };
    if exponent > 10 {
        return None;
    }
    let factor = pow_10(exponent as i64);
    proof {
        if supported_exponent(exponent as int) {
            lemma_pow10_positive(exponent as nat);
        }
    }
    if factor == 0 {
        return None;
    }
    if diff >= 0 {
        if amount >= 0 {
            Some(amount / factor)
        } else {
            let magnitude: i128 = -(amount as i128);
            let quotient: i128 = magnitude / (factor as i128);
            assert(quotient <= magnitude) by {
                lemma_fundamental_div_mod(magnitude as int, factor as int);
                assert(factor * quotient >= quotient) by (nonlinear_arith)
                    requires
                        factor >= 1,
                        quotient >= 0,
                ;
            }
            let result: i128 = -quotient;
            Some(result as i64)
        }
    } else {
        assert(-0x8000_0000_0000_0000_0000_0000_0000_0000 <= amount as i128 * factor as i128
            <= 0x7fff_ffff_ffff_ffff_ffff_ffff_ffff_ffff) by (nonlinear_arith)
            requires
                i64::MIN <= amount <= i64::MAX,
                0 <= factor <= 10_000_000_000,
        ;
        let product: i128 = amount as i128 * factor as i128;
        if product < i64::MIN as i128 || product > i64::MAX as i128 {
            None
        } else {
            Some(product as i64)
        }
    }
}

/// Moving an amount to another precision and back: exact when precision grows
/// first; when it drops first, the digits below the scale factor are cut off
/// toward zero, so the result never exceeds the amount in size, and it equals
/// the amount exactly when the scale factor divides it.
pub proof fn lemma_renormalize_round_trip(amount: int, source: int, target: int)
    requires
        renormalizable(source, target),
    ensures
        source <= target ==> renormalize(renormalize(amount, source, target), target, source)
            == amount,
        source > target ==> ({
            let f = pow10((source - target) as nat);
            let back = renormalize(renormalize(amount, source, target), target, source);
            &&& back == div_trunc(amount, f) * f
            &&& abs(back) <= abs(amount)
            &&& (amount >= 0 ==> back >= 0)
            &&& (amount <= 0 ==> back <= 0)
            &&& (back == amount <==> amount % f == 0)
        }),
{
    if source == target {
        assert(pow10(0) == 1);
        assert(renormalize(amount, source, target) == amount);
    } else if source < target {
        let f = pow10((target - source) as nat);
        lemma_pow10_positive((target - source) as nat);
        let up = amount * f;
        assert(amount * f == f * amount) by (nonlinear_arith);
        lemma_div_multiples_vanish(amount, f);
        if amount < 0 {
            assert(-up == f * (-amount)) by (nonlinear_arith)
                requires
                    up == f * amount,
            ;
            lemma_div_multiples_vanish(-amount, f);
        }
    } else {
        let f = pow10((source - target) as nat);
        lemma_pow10_positive((source - target) as nat);
        let down = div_trunc(amount, f);
        assert(renormalize(down, target, source) == down * f);
        if amount >= 0 {
            lemma_fundamental_div_mod(amount, f);
            let q = amount / f;
            let rem = amount % f;
            assert(0 <= rem < f);
            assert(down * f == amount - rem) by (nonlinear_arith)
                requires
                    down == q,
                    amount == f * q + rem,
            ;
            assert(q >= 0) by (nonlinear_arith)
                requires
                    amount == f * q + rem,
                    rem < f,
                    amount >= 0,
                    f > 0,
            ;
            assert(down * f >= 0) by (nonlinear_arith)
                requires
                    down == q,
                    q >= 0,
                    f > 0,
            ;
        } else {
            let m = -amount;
            lemma_fundamental_div_mod(m, f);
            let q = m / f;
            let rem = m % f;
            assert(0 <= rem < f);
            assert(down * f == amount + rem) by (nonlinear_arith)
                requires
                    down == -q,
                    m == f * q + rem,
                    amount == -m,
            ;
            assert(q >= 0) by (nonlinear_arith)
                requires
                    m == f * q + rem,
                    rem < f,
                    m > 0,
                    f > 0,
            ;
            assert(down * f <= 0) by (nonlinear_arith)
                requires
                    down == -q,
                    q >= 0,
                    f > 0,
            ;
            if rem == 0 {
                assert(amount == (-q) * f) by (nonlinear_arith)
                    requires
                        m == f * q + rem,
                        rem == 0,
                        amount == -m,
                ;
                lemma_mod_multiples_basic(-q, f);
            }
            if amount % f == 0 {
                lemma_fundamental_div_mod(amount, f);
                let k = amount / f;
                assert(m == (-k) * f) by (nonlinear_arith)
                    requires
                        amount == f * k + amount % f,
                        amount % f == 0,
                        m == -amount,
                ;
                lemma_mod_multiples_basic(-k, f);
            }
        }
    }
}

} // verus!
