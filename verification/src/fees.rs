//! The fee engine: splits a gross payout into the creator's net amount and
//! the platform's fee, measured in basis points.

use vstd::prelude::*;
use vstd::arithmetic::div_mod::{lemma_div_is_ordered, lemma_div_nonincreasing, lemma_div_multiples_vanish};
use vstd::arithmetic::mul::lemma_mul_inequality;
use crate::errors::StreamError;

verus! {

/// Basis points denominator (10000 = 100%)
pub const BPS_DENOMINATOR: i128 = 10000;
/// Default platform fee (200 basis points = 2%)
pub const DEFAULT_PLATFORM_FEE_BPS: i128 = 200;
/// Largest platform fee that configuration accepts (1000 basis points = 10%)
pub const MAX_PLATFORM_FEE_BPS: i128 = 1000;

/// The platform's cut of a gross payout: floor(gross × fee_bps / 10000).
pub open spec fn spec_fee(gross: int, fee_bps: int) -> int {
    gross * fee_bps / (BPS_DENOMINATOR as int)
}

/// Fee bounds: for fee_bps in [0, 1000] and gross ≥ 0, the fee split
/// satisfies 0 ≤ fee ≤ gross, and net + fee == gross exactly, where
/// net == gross - fee.
pub proof fn lemma_fee_bounds(gross: int, fee_bps: int)
    requires
        gross >= 0,
        0 <= fee_bps <= MAX_PLATFORM_FEE_BPS,
    ensures
        0 <= spec_fee(gross, fee_bps) <= gross,
        (gross - spec_fee(gross, fee_bps)) + spec_fee(gross, fee_bps) == gross,
{
    let d = BPS_DENOMINATOR as int;
    lemma_mul_inequality(fee_bps, d, gross);
    assert(gross * fee_bps <= gross * d) by (nonlinear_arith)
        requires gross >= 0, fee_bps <= d,
    ;
    assert(gross * fee_bps >= 0) by (nonlinear_arith)
        requires gross >= 0, fee_bps >= 0,
    ;
    lemma_div_is_ordered(0, gross * fee_bps, d);
    lemma_div_is_ordered(gross * fee_bps, gross * d, d);
    lemma_div_multiples_vanish(gross, d);
}

/// Splits a gross amount into (net, fee). Fails with `Overflow` exactly
/// when the intermediate product gross × fee_bps exceeds the machine range.
pub fn fee_split(gross: i128, fee_bps: i128) -> (r: Result<(i128, i128), StreamError>)
    requires
        gross >= 0,
        0 <= fee_bps <= MAX_PLATFORM_FEE_BPS,
    ensures
        r is Ok <==> gross * fee_bps <= i128::MAX,
        r matches Ok(p) ==> ({
            &&& p.1 == spec_fee(gross as int, fee_bps as int)
            &&& p.0 == gross - p.1
            &&& 0 <= p.1 <= gross
        }),
        r matches Err(e) ==> e == StreamError::Overflow,
{
    proof {
        assert(gross * fee_bps >= 0) by (nonlinear_arith)
            requires gross >= 0, fee_bps >= 0,
        ;
    }
    match gross.checked_mul(fee_bps) {
        Some(prod) => {
            proof {
                lemma_fee_bounds(gross as int, fee_bps as int);
                lemma_div_nonincreasing(prod as int, BPS_DENOMINATOR as int);
                lemma_div_is_ordered(0, prod as int, BPS_DENOMINATOR as int);
            }
            let fee = prod.checked_div(BPS_DENOMINATOR).unwrap();
            Ok((gross - fee, fee))
        },
        None => Err(StreamError::Overflow),
    }
}

} // verus!
