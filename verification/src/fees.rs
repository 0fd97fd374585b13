//! The platform fee taken from each donation, in basis points.

use vstd::prelude::*;

verus! {

/// The highest fee rate that can be configured: ten percent.
pub const MAX_FEE_BPS: u64 = 1000;

/// The fee rate that applies while none has been configured: two percent.
pub const DEFAULT_FEE_BPS: u64 = 200;

/// One hundred percent, in basis points.
pub const BPS_SCALE: u64 = 10000;

/// The fee on `gross` at `rate_bps` basis points, rounded down.
pub open spec fn fee_of(gross: u64, rate_bps: u64) -> int {
    (gross * rate_bps) / (BPS_SCALE as int)
}

/// What is left of `gross` after the fee.
pub open spec fn net_of(gross: u64, rate_bps: u64) -> int {
    gross - fee_of(gross, rate_bps)
}

/// At a rate of at most one hundred percent the fee is at most the gross
/// amount, so fee and net amount are both amounts and add up to the gross.
pub proof fn lemma_fee_bounds(gross: u64, rate_bps: u64)
    requires
        rate_bps <= BPS_SCALE,
    ensures
        0 <= fee_of(gross, rate_bps) <= gross,
        0 <= net_of(gross, rate_bps) <= gross,
        net_of(gross, rate_bps) + fee_of(gross, rate_bps) == gross,
        gross > 0 && rate_bps <= MAX_FEE_BPS ==> net_of(gross, rate_bps) > 0,
{
    assert(0 <= gross * rate_bps <= gross * 10000) by (nonlinear_arith)
        requires
            0 <= rate_bps <= 10000,
            0 <= gross,
    ;
    if gross > 0 && rate_bps <= 1000 {
        assert(gross * rate_bps <= gross * 1000) by (nonlinear_arith)
            requires
                0 <= rate_bps <= 1000,
                0 <= gross,
        ;
    }
}

/// Splits a gross donation into the platform fee and the net amount.
pub fn split_fee(gross: u64, rate_bps: u64) -> (parts: (u64, u64))
    requires
        rate_bps <= MAX_FEE_BPS,
    ensures
        parts.0 == fee_of(gross, rate_bps),
        parts.1 == net_of(gross, rate_bps),
        parts.0 + parts.1 == gross,
{
    proof {
        lemma_fee_bounds(gross, rate_bps);
        assert(gross * rate_bps <= 0xffff_ffff_ffff_ffff * 1000) by (nonlinear_arith)
            requires
                0 <= rate_bps <= 1000,
                0 <= gross <= 0xffff_ffff_ffff_ffff,
        ;
    }
    let product: u128 = (gross as u128) * (rate_bps as u128);
    let fee: u64 = (product / (BPS_SCALE as u128)) as u64;
    (fee, gross - fee)
}

} // verus!
