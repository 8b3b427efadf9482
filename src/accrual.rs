use vstd::arithmetic::div_mod::{
    lemma_div_is_ordered, lemma_fundamental_div_mod, lemma_fundamental_div_mod_converse_div,
    lemma_mod_pos_bound,
};
use vstd::prelude::*;

verus! {

/// Ledgers closed per day, at five seconds per ledger.
pub const DAY_IN_LEDGERS: u32 = 17280;

/// Days in a yield year.
pub const DAYS_PER_YEAR: u128 = 365;

/// Ledgers closed per yield year.
pub const LEDGERS_PER_YEAR: u128 = 17280 * DAYS_PER_YEAR;

/// Rates are expressed over this denominator: a rate of 500 is 5.00% a year.
pub const INTEREST_RATE_DENOMINATOR: u128 = 10_000;

/// The divisor of the yield formula: ledgers per year times the rate
/// denominator.
pub const YIELD_DIVISOR: u128 = LEDGERS_PER_YEAR * INTEREST_RATE_DENOMINATOR;

/// Simple yield on `principal` at annual `rate` over `duration` ledgers,
/// rounded down.
pub open spec fn yield_of(principal: int, rate: int, duration: int) -> int {
    principal * rate * duration / (YIELD_DIVISOR as int)
}

/// `(x * d + y) / d == x + y / d` for non-negative `y`.
proof fn lemma_div_shift(x: int, y: int, d: int)
    requires
        0 <= y,
        0 < d,
    ensures
        (x * d + y) / d == x + y / d,
{
    lemma_fundamental_div_mod(y, d);
    lemma_mod_pos_bound(y, d);
    let q = x + y / d;
    let r = y % d;
    assert(x * d + y == q * d + r) by (nonlinear_arith)
        requires
            y == d * (y / d) + r,
            q == x + y / d,
    ;
    lemma_fundamental_div_mod_converse_div(x * d + y, d, q, r);
}

/// `a * b / d`, or `None` where that quotient does not fit in a `u128`.
///
/// Both factors are split by the divisor, so that no partial product that
/// matters can overflow: with `a = a1 * d + a0` and `b = b1 * d + b0`,
/// `a * b / d == a1 * b1 * d + a1 * b0 + a0 * b1 + a0 * b0 / d`.
fn mul_div(a: u128, b: u128, d: u128) -> (r: Option<u128>)
    requires
        0 < d <= u64::MAX,
    ensures
        r == (if a * b / (d as int) <= u128::MAX {
            Some((a * b / (d as int)) as u128)
        } else {
            None::<u128>
        }),
{
    let a1 = a / d;
    let a0 = a % d;
    let b1 = b / d;
    let b0 = b % d;
        proof {
        lemma_fundamental_div_mod(a as int, d as int);
        lemma_fundamental_div_mod(b as int, d as int);
        lemma_mod_pos_bound(a as int, d as int);
        lemma_mod_pos_bound(b as int, d as int);
        let x = a1 * b1 * d + a1 * b0 + a0 * b1;
        assert(a * b == x * d + a0 * b0) by (nonlinear_arith)
            requires
                a == d * a1 + a0,
                b == d * b1 + b0,
                x == a1 * b1 * d + a1 * b0 + a0 * b1,
        ;
        lemma_div_shift(x, a0 * b0, d as int);
        assert(a1 * b0 <= a && a0 * b1 <= b && a0 * b0 < d * d && 0 <= a0 * b0 / (d as int))
            by (nonlinear_arith)
            requires
                a == d * a1 + a0,
                b == d * b1 + b0,
                0 <= a0 < d,
                0 <= b0 < d,
                0 <= a1,
                0 <= b1,
        ;
        assert(d * d <= u64::MAX * u64::MAX) by (nonlinear_arith)
            requires
                0 < d <= u64::MAX,
        ;
        assert(a1 * b1 <= a1 * b1 * d) by (nonlinear_arith)
            requires
                0 <= a1,
                0 <= b1,
                1 <= d,
        ;
        lemma_div_is_ordered(0, a0 * b0, d as int);
    }
    let t1 = match a1.checked_mul(b1) {
        Some(p) => match p.checked_mul(d) {
            Some(q) => q,
            None => return None,
        },
        None => return None,
    };
    let t2 = a1 * b0;
    let t3 = a0 * b1;
    let t4 = (a0 * b0) / d;
    match t1.checked_add(t2) {
        Some(s1) => match s1.checked_add(t3) {
            Some(s2) => s2.checked_add(t4),
            None => None,
        },
        None => None,
    }
}

/// The yield owed on `principal` at annual `rate` over `duration` ledgers,
/// computed exactly; `None` where it does not fit in an `i128`.
pub fn calculate_yield(principal: i128, rate: u128, duration: u32) -> (r: Option<i128>)
    requires
        0 <= principal,
    ensures
        r == (if yield_of(principal as int, rate as int, duration as int) <= i128::MAX {
            Some(yield_of(principal as int, rate as int, duration as int) as i128)
        } else {
            None::<i128>
        }),
{
    let p = principal as u128;
    let p1 = p / YIELD_DIVISOR;
    let p0 = p % YIELD_DIVISOR;
    let ghost q: int = YIELD_DIVISOR as int;
    proof {
        lemma_fundamental_div_mod(p as int, q);
        lemma_mod_pos_bound(p as int, q);
        assert(p * rate * duration == (p1 * rate * duration) * q + (p0 * duration) * rate)
            by (nonlinear_arith)
            requires
                p == q * p1 + p0,
        ;
        lemma_div_shift(p1 * rate * duration, (p0 * duration) * rate, q);
        assert(p0 * duration <= YIELD_DIVISOR * u32::MAX) by (nonlinear_arith)
            requires
                0 <= p0 < q,
                q == YIELD_DIVISOR,
                0 <= duration <= u32::MAX,
        ;
        assert(p1 * rate <= p1 * rate * duration || duration == 0) by (nonlinear_arith)
            requires
                0 <= p1,
                0 <= rate,
                0 <= duration,
        ;
        assert(0 <= p0 * duration * rate / q) by {
            assert(0 <= p0 * duration * rate) by (nonlinear_arith)
                requires
                    0 <= p0,
                    0 <= duration,
                    0 <= rate,
            ;
            lemma_div_is_ordered(0, p0 * duration * rate, q);
        }
        assert(0 <= p1 * rate * duration) by (nonlinear_arith)
            requires
                0 <= p1,
                0 <= duration,
                0 <= rate,
        ;
    }
    if duration == 0 {
        proof {
            assert(p * rate * duration == 0) by (nonlinear_arith)
                requires
                    duration == 0,
            ;
        }
        return Some(0);
    }
    let hi = match p1.checked_mul(rate) {
        Some(x) => match x.checked_mul(duration as u128) {
            Some(y) => y,
            None => return None,
        },
        None => return None,
    };
    let lo = match mul_div(p0 * (duration as u128), rate, YIELD_DIVISOR) {
        Some(x) => x,
        None => return None,
    };
    match hi.checked_add(lo) {
        Some(total) => {
            if total <= i128::MAX as u128 {
                Some(total as i128)
            } else {
                None
            }
        },
        None => None,
    }
}

/// No yield is owed for an empty lock or at a zero rate.
pub proof fn lemma_yield_zero(principal: int, rate: int, duration: int)
    requires
        rate == 0 || duration == 0,
    ensures
        yield_of(principal, rate, duration) == 0,
{
    assert(principal * rate * duration == 0) by (nonlinear_arith)
        requires
            rate == 0 || duration == 0,
    ;
}

/// Yield is never negative.
pub proof fn lemma_yield_nonnegative(principal: int, rate: int, duration: int)
    requires
        0 <= principal,
        0 <= rate,
        0 <= duration,
    ensures
        0 <= yield_of(principal, rate, duration),
{
    assert(0 <= principal * rate * duration) by (nonlinear_arith)
        requires
            0 <= principal,
            0 <= rate,
            0 <= duration,
    ;
    lemma_div_is_ordered(0, principal * rate * duration, YIELD_DIVISOR as int);
}

/// At a fixed principal and rate, a longer lock never earns less.
pub proof fn lemma_yield_monotonic_in_duration(principal: int, rate: int, d1: int, d2: int)
    requires
        0 <= principal,
        0 <= rate,
        0 <= d1 <= d2,
    ensures
        yield_of(principal, rate, d1) <= yield_of(principal, rate, d2),
{
    assert(principal * rate * d1 <= principal * rate * d2) by (nonlinear_arith)
        requires
            0 <= principal,
            0 <= rate,
            d1 <= d2,
    ;
    lemma_div_is_ordered(principal * rate * d1, principal * rate * d2, YIELD_DIVISOR as int);
}

/// At a fixed principal and lock, a higher rate never earns less.
pub proof fn lemma_yield_monotonic_in_rate(principal: int, r1: int, r2: int, duration: int)
    requires
        0 <= principal,
        0 <= r1 <= r2,
        0 <= duration,
    ensures
        yield_of(principal, r1, duration) <= yield_of(principal, r2, duration),
{
    assert(principal * r1 * duration <= principal * r2 * duration) by (nonlinear_arith)
        requires
            0 <= principal,
            r1 <= r2,
            0 <= duration,
    ;
    lemma_div_is_ordered(principal * r1 * duration, principal * r2 * duration, YIELD_DIVISOR as int);
}

} // verus!
