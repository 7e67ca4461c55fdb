use vstd::prelude::*;

verus! {

/// Basis points in one whole.
pub const BPS_DENOMINATOR: u128 = 10_000;

/// Percent in one whole.
pub const PCT_DENOMINATOR: u128 = 100;

/// The fee charged on `amount` at `rate_bps` basis points, rounded down.
pub open spec fn fee_of(amount: int, rate_bps: int) -> int {
    amount * rate_bps / 10_000
}

/// The `pct` percent share of `fee`, rounded down.
pub open spec fn share_of(fee: int, pct: int) -> int {
    fee * pct / 100
}

/// The three-way split of `fee`: referral, buyback, and the treasury remainder.
pub open spec fn split_of(fee: int, referral_pct: int, buyback_pct: int, has_referrer: bool) -> (
    int,
    int,
    int,
) {
    let referral = if has_referrer {
        share_of(fee, referral_pct)
    } else {
        0
    };
    let buyback = share_of(fee, buyback_pct);
    (referral, buyback, fee - referral - buyback)
}

/// Whether three fee percentages describe a whole.
pub open spec fn percentages_valid(referral_pct: u8, buyback_pct: u8, treasury_pct: u8) -> bool {
    referral_pct + buyback_pct + treasury_pct == 100
}

/// Checks that the three fee percentages sum to exactly 100.
pub fn percentages_sum_to_whole(referral_pct: u8, buyback_pct: u8, treasury_pct: u8) -> (r: bool)
    ensures
        r == percentages_valid(referral_pct, buyback_pct, treasury_pct),
{
    let total: u16 = referral_pct as u16 + buyback_pct as u16 + treasury_pct as u16;
    total == 100
}

/// The fee on `amount` at `rate_bps`, computed in 128 bits; `None` when it does not fit in
/// 64 bits (only possible for rates above 100%).
pub fn checked_fee(amount: u64, rate_bps: u16) -> (r: Option<u64>)
    ensures
        r matches Some(f) ==> f == fee_of(amount as int, rate_bps as int),
        r is None <==> fee_of(amount as int, rate_bps as int) > u64::MAX,
{
    proof {
        lemma_wide_product(amount as int, rate_bps as int);
    }
    let wide: u128 = amount as u128 * rate_bps as u128 / BPS_DENOMINATOR;
    if wide > u64::MAX as u128 {
        None
    } else {
        Some(wide as u64)
    }
}

/// The fee on `amount` at `rate_bps` basis points, `floor(amount * rate_bps / 10000)`.
pub fn compute_fee(amount: u64, rate_bps: u16) -> (r: u64)
    requires
        fee_of(amount as int, rate_bps as int) <= u64::MAX,
    ensures
        r == fee_of(amount as int, rate_bps as int),
{
    proof {
        lemma_wide_product(amount as int, rate_bps as int);
    }
    let wide: u128 = amount as u128 * rate_bps as u128 / BPS_DENOMINATOR;
    wide as u64
}

proof fn lemma_wide_product(a: int, b: int)
    requires
        0 <= a <= u64::MAX,
        0 <= b <= u64::MAX,
    ensures
        0 <= a * b <= u128::MAX,
{
    assert(0 <= a * b <= u64::MAX * u64::MAX) by (nonlinear_arith)
        requires
            0 <= a <= u64::MAX,
            0 <= b <= u64::MAX,
    ;
}

/// A rounded-down percent share of a fee lies between zero and the fee.
pub proof fn lemma_share_bounds(fee: int, pct: int)
    requires
        0 <= fee,
        0 <= pct <= 100,
    ensures
        0 <= share_of(fee, pct) <= fee,
{
    assert(0 <= fee * pct <= fee * 100) by (nonlinear_arith)
        requires
            0 <= fee,
            0 <= pct <= 100,
    ;
    assert(fee * pct / 100 <= fee * 100 / 100) by (nonlinear_arith)
        requires
            0 <= fee * pct <= fee * 100,
    ;
    assert(fee * 100 / 100 == fee) by (nonlinear_arith);
    assert(0 <= fee * pct / 100) by (nonlinear_arith)
        requires
            0 <= fee * pct,
    ;
}

/// Two rounded-down shares never exceed the rounded-down share of their sum.
pub proof fn lemma_shares_fit(fee: int, a: int, b: int)
    requires
        0 <= fee,
        0 <= a,
        0 <= b,
        a + b <= 100,
    ensures
        share_of(fee, a) + share_of(fee, b) <= fee,
{
    let x = fee * a;
    let y = fee * b;
    assert(x + y == fee * (a + b)) by (nonlinear_arith)
        requires
            x == fee * a,
            y == fee * b,
    ;
    assert(fee * (a + b) <= fee * 100) by (nonlinear_arith)
        requires
            0 <= fee,
            a + b <= 100,
    ;
    assert(0 <= x && 0 <= y) by (nonlinear_arith)
        requires
            x == fee * a,
            y == fee * b,
            0 <= fee,
            0 <= a,
            0 <= b,
    ;
    assert(x / 100 + y / 100 <= (x + y) / 100) by (nonlinear_arith)
        requires
            0 <= x,
            0 <= y,
    ;
    assert((x + y) / 100 <= fee * 100 / 100) by (nonlinear_arith)
        requires
            x + y <= fee * 100,
    ;
    assert(fee * 100 / 100 == fee) by (nonlinear_arith);
}

/// Splits `fee` into (referral, buyback, treasury) shares. The referral share is paid only
/// when there is a referrer; the treasury takes whatever remains, rounding included.
pub fn split(fee: u64, referral_pct: u8, buyback_pct: u8, has_referrer: bool) -> (r: (
    u64,
    u64,
    u64,
))
    requires
        referral_pct + buyback_pct <= 100,
    ensures
        (r.0 as int, r.1 as int, r.2 as int) == split_of(
            fee as int,
            referral_pct as int,
            buyback_pct as int,
            has_referrer,
        ),
        r.0 + r.1 + r.2 == fee,
{
    proof {
        lemma_share_bounds(fee as int, referral_pct as int);
        lemma_share_bounds(fee as int, buyback_pct as int);
        lemma_shares_fit(fee as int, referral_pct as int, buyback_pct as int);
        lemma_shares_fit(fee as int, 0, buyback_pct as int);
        assert(share_of(fee as int, 0) == 0);
        lemma_wide_product(fee as int, referral_pct as int);
        lemma_wide_product(fee as int, buyback_pct as int);
    }
    let referral: u64 = if has_referrer {
        (fee as u128 * referral_pct as u128 / PCT_DENOMINATOR) as u64
    } else {
        0
    };
    let buyback: u64 = (fee as u128 * buyback_pct as u128 / PCT_DENOMINATOR) as u64;
    let treasury: u64 = fee - referral - buyback;
    (referral, buyback, treasury)
}

} // verus!
