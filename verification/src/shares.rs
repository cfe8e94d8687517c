//! Basis-point fund-split arithmetic and its reconciliation laws.
//!
//! Every split computes its rounded buckets with floor division and its final
//! bucket as a subtractive remainder, so the buckets always sum exactly to the
//! escrowed total: no value is lost or created by rounding.

use vstd::prelude::*;
use vstd::arithmetic::div_mod::lemma_div_is_ordered;
use vstd::arithmetic::div_mod::lemma_div_multiples_vanish;
use vstd::arithmetic::div_mod::lemma_div_pos_is_pos;
use vstd::arithmetic::div_mod::lemma_fundamental_div_mod;
use vstd::arithmetic::mul::lemma_mul_inequality;
use vstd::arithmetic::mul::lemma_mul_is_distributive_add;
use vstd::arithmetic::mul::lemma_mul_nonnegative;

verus! {

/// Basis points of the whole: 10000 = 100%.
pub const BPS_DENOMINATOR: u16 = 10000;

/// Refund rate when the renter cancels at least one day before the rental
/// starts.
pub const FULL_REFUND_BPS: u16 = 10000;

/// Refund rate when the renter cancels less than one day before the rental
/// starts.
pub const HALF_REFUND_BPS: u16 = 5000;

/// The rounded share of `total` that `bps` basis points select:
/// `floor(total * bps / 10000)`.
pub open spec fn pct_share(total: u64, bps: u16) -> int {
    (total * bps) / (BPS_DENOMINATOR as int)
}

/// A share taken at a rate of at most 100% lies between zero and the total.
pub proof fn lemma_pct_share_bounds(total: u64, bps: u16)
    requires
        bps <= BPS_DENOMINATOR,
    ensures
        0 <= pct_share(total, bps) <= total,
{
    let d = BPS_DENOMINATOR as int;
    lemma_mul_nonnegative(total as int, bps as int);
    lemma_div_pos_is_pos(total * bps, d);
    lemma_mul_inequality(bps as int, d, total as int);
    lemma_div_is_ordered(total * bps, total * d, d);
    lemma_div_multiples_vanish(total as int, d);
}

/// Taking the whole (10000 basis points) returns exactly the total.
pub proof fn lemma_pct_share_whole(total: u64)
    ensures
        pct_share(total, BPS_DENOMINATOR) == total,
{
    lemma_div_multiples_vanish(total as int, BPS_DENOMINATOR as int);
}

/// Normal completion reconciles exactly: the platform fee plus the owner
/// amount (its subtractive complement) equal the total, and both buckets are
/// non-negative, for every total and every fee rate up to 100%.
pub proof fn lemma_completion_split(total: u64, fee_bps: u16)
    requires
        fee_bps <= BPS_DENOMINATOR,
    ensures
        0 <= pct_share(total, fee_bps) <= total,
        pct_share(total, fee_bps) + (total - pct_share(total, fee_bps)) == total,
{
    lemma_pct_share_bounds(total, fee_bps);
}

/// Administrative resolution reconciles exactly: the owner share and the
/// renter share at rates summing to at most 100% fit inside the total, so the
/// platform bucket (the subtractive remainder absorbing all rounding loss) is
/// non-negative and the three buckets sum exactly to the total.
pub proof fn lemma_resolution_split(total: u64, owner_bps: u16, renter_bps: u16)
    requires
        owner_bps + renter_bps <= BPS_DENOMINATOR,
    ensures
        0 <= pct_share(total, owner_bps),
        0 <= pct_share(total, renter_bps),
        pct_share(total, owner_bps) + pct_share(total, renter_bps) <= total,
        pct_share(total, owner_bps) + pct_share(total, renter_bps) + (total - pct_share(
            total,
            owner_bps,
        ) - pct_share(total, renter_bps)) == total,
{
    let d = BPS_DENOMINATOR as int;
    let a = total * owner_bps;
    let b = total * renter_bps;
    lemma_mul_nonnegative(total as int, owner_bps as int);
    lemma_mul_nonnegative(total as int, renter_bps as int);
    lemma_div_pos_is_pos(a, d);
    lemma_div_pos_is_pos(b, d);
    lemma_fundamental_div_mod(a, d);
    lemma_fundamental_div_mod(b, d);
    assert(d * (a / d) <= a);
    assert(d * (b / d) <= b);
    lemma_mul_is_distributive_add(total as int, owner_bps as int, renter_bps as int);
    assert(a + b == total * (owner_bps + renter_bps));
    lemma_mul_inequality((owner_bps + renter_bps) as int, d, total as int);
    assert(a + b <= total * d);
    lemma_mul_is_distributive_add(d, a / d, b / d);
    assert(d * (a / d + b / d) <= total * d);
    assert(a / d + b / d <= total) by {
        if a / d + b / d > total {
            lemma_mul_inequality(total as int + 1, a / d + b / d, d);
            assert(d * (total + 1) <= d * (a / d + b / d));
        }
    }
}

} // verus!
