//! Fee arithmetic: the referrer / treasury split of a registration fee.

use vstd::prelude::*;

verus! {

/// Basis points in one whole: `10_000` bps is 100%.
pub const BPS_DENOMINATOR: u16 = 10000;

/// The referrer's share of `total` at `bps` basis points, rounded down.
pub open spec fn referrer_share(total: nat, bps: nat) -> nat {
    (total * bps) / 10000
}

/// The split of `total` at `bps`: `(referrer share, treasury share)`.
pub open spec fn split_of(total: u128, bps: u16) -> (u128, u128) {
    let r = referrer_share(total as nat, bps as nat);
    (r as u128, (total - r) as u128)
}

/// Splits `total` into `(referrer_share, treasury_share)`.
///
/// The referrer receives `floor(total * bps / 10000)`; the treasury receives
/// the rest, so any rounding residue goes to the treasury and nothing is lost.
pub fn split_fee(total: u128, bps: u16) -> (r: (u128, u128))
    requires
        bps <= BPS_DENOMINATOR,
    ensures
        r.0 == referrer_share(total as nat, bps as nat),
        r.0 + r.1 == total,
        r.0 <= total,
        r == split_of(total, bps),
{
    let q: u128 = total / 10000;
    let rem: u128 = total % 10000;
    proof {
        lemma_split_parts(total as nat, bps as nat, q as nat, rem as nat);
    }
    let hi: u128 = q * (bps as u128);
    let lo: u128 = (rem * (bps as u128)) / 10000;
    let ref_share: u128 = hi + lo;
    (ref_share, total - ref_share)
}

proof fn lemma_split_parts(total: nat, bps: nat, q: nat, rem: nat)
    requires
        bps <= 10000,
        q == total / 10000,
        rem == total % 10000,
    ensures
        q * bps <= total,
        rem * bps < 10000 * 10000,
        q * bps + (rem * bps) / 10000 == referrer_share(total, bps),
        referrer_share(total, bps) <= total,
{
    assert(total == 10000 * q + rem) by (nonlinear_arith)
        requires q == total / 10000, rem == total % 10000;
    assert(q * bps <= q * 10000) by (nonlinear_arith)
        requires bps <= 10000;
    assert(rem * bps < 10000 * 10000) by (nonlinear_arith)
        requires bps <= 10000, rem < 10000;
    assert(total * bps == 10000 * (q * bps) + rem * bps) by (nonlinear_arith)
        requires total == 10000 * q + rem;
    vstd::arithmetic::div_mod::lemma_hoist_over_denominator((rem * bps) as int, (q * bps) as int, 10000);
    assert((rem * bps) as int + (q * bps) as int * 10000 == total * bps) by (nonlinear_arith)
        requires total * bps == 10000 * (q * bps) + rem * bps;
    assert(referrer_share(total, bps) <= total) by (nonlinear_arith)
        requires bps <= 10000, referrer_share(total, bps) == (total * bps) / 10000;
}

} // verus!
