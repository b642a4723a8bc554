//! Integer percentage arithmetic.  Royalty cuts and auction step prices
//! are integer percentages that round toward zero; the truncation is a
//! stated compatibility requirement and must not be "improved".

use vstd::prelude::*;

verus! {

/// `floor(amount * percent / 100)`, computed without overflowing `u128`.
///
/// The result never exceeds `amount`, so every caller may treat it as a
/// sub-amount of what it was derived from.
pub fn percent_of(amount: u128, percent: u64) -> (r: u128)
    requires
        percent <= 100,
    ensures
        r == (amount * percent) / 100,
        r <= amount,
{
    let q: u128 = amount / 100;
    let rem: u128 = amount % 100;
    let p: u128 = percent as u128;
    proof {
        assert(amount == 100 * q + rem && rem < 100) by (nonlinear_arith)
            requires
                q == amount / 100,
                rem == amount % 100,
        ;
        assert(rem * p <= 9900) by (nonlinear_arith)
            requires
                rem < 100,
                p <= 100,
        ;
        assert(amount * p == 100 * (q * p) + rem * p) by (nonlinear_arith)
            requires
                amount == 100 * q + rem,
        ;
        assert(q * p + (rem * p) / 100 == (amount * p) / 100) by (nonlinear_arith)
            requires
                amount * p == 100 * (q * p) + rem * p,
                rem * p >= 0,
        ;
        assert(q * p <= amount && q * p + (rem * p) / 100 <= amount) by (nonlinear_arith)
            requires
                amount == 100 * q + rem,
                rem < 100,
                p <= 100,
                q >= 0,
                rem >= 0,
        ;
    }
    let part: u128 = rem * p / 100;
    q * p + part
}

/// `floor(amount * percent / 100)` for an arbitrary percentage, or
/// `None` when the result does not fit in `u128`.
pub fn percent_of_checked(amount: u128, percent: u64) -> (r: Option<u128>)
    ensures
        r matches Some(v) ==> v == (amount * percent) / 100,
        r is None ==> (amount * percent) / 100 > u128::MAX,
{
    let q: u128 = amount / 100;
    let rem: u128 = amount % 100;
    let p: u128 = percent as u128;
    proof {
        assert(amount == 100 * q + rem && rem < 100) by (nonlinear_arith)
            requires
                q == amount / 100,
                rem == amount % 100,
        ;
        assert(amount * p == 100 * (q * p) + rem * p) by (nonlinear_arith)
            requires
                amount == 100 * q + rem,
        ;
        assert(q * p + (rem * p) / 100 == (amount * p) / 100) by (nonlinear_arith)
            requires
                amount * p == 100 * (q * p) + rem * p,
                rem * p >= 0,
        ;
        assert(rem * p < 100 * (p + 1)) by (nonlinear_arith)
            requires
                rem < 100,
                p >= 0,
        ;
        assert((rem * p) / 100 <= p) by (nonlinear_arith)
            requires
                rem * p < 100 * (p + 1),
                rem * p >= 0,
        ;
    }
    let high: u128 = match q.checked_mul(p) {
        Some(h) => h,
        None => {
            return None;
        },
    };
    let part: u128 = rem * p / 100;
    high.checked_add(part)
}

} // verus!
