use vstd::prelude::*;
use crate::binding::{Binding, BindingModel};
use crate::error::BridgeError;

verus! {

/// Fee percentages are parts of this factor.
pub const PERCENT_FACTOR: i64 = 1_000_000;

/// Largest share of a fee that a referrer may get back (20%).
pub const MAX_REFERRER_FEE: i64 = 200_000;

/// The fee tier: the after-threshold percentage above the threshold, the
/// before-threshold one otherwise.
pub open spec fn fee_percent(b: BindingModel, amount: int) -> int {
    if amount > b.threshold_fee {
        b.after_percent_fee
    } else {
        b.before_percent_fee
    }
}

/// `min_fee + floor(amount * percent / PERCENT_FACTOR)`.
pub open spec fn fee_for(b: BindingModel, amount: int) -> int {
    b.min_fee + (amount * fee_percent(b, amount)) / (PERCENT_FACTOR as int)
}

/// `floor(percent * fee / PERCENT_FACTOR)`.
pub open spec fn referrer_share(percent: int, fee: int) -> int {
    (percent * fee) / (PERCENT_FACTOR as int)
}

/// The first check on a deposit of `amount` under `b` that fails, in the
/// order the bridge makes them, or `None` if the deposit is accepted.
pub open spec fn deposit_refusal(b: BindingModel, amount: int, gasless_reward: int, referrer_percent: int)
    -> Option<BridgeError> {
    if amount <= 0 {
        Some(BridgeError::InvalidAmount)
    } else if !b.valid() {
        Some(BridgeError::InvalidBinding)
    } else if amount < b.min_amount {
        Some(BridgeError::BelowMinimum)
    } else if !b.enabled {
        Some(BridgeError::BindingDisabled)
    } else if amount <= fee_for(b, amount) {
        Some(BridgeError::FeeExceedsAmount)
    } else if !(0 <= referrer_percent <= MAX_REFERRER_FEE) {
        Some(BridgeError::InvalidReferrerFee)
    } else if amount - fee_for(b, amount) <= gasless_reward {
        Some(BridgeError::AmountBelowGaslessReward)
    } else {
        None
    }
}

/// How an accepted deposit divides.
#[derive(Debug, Clone, Copy, PartialEq, Eq, Structural)]
pub struct FeeQuote {
    /// The whole fee, referrer share included.
    pub fee: i64,
    /// The part of the fee that goes back to the referrer.
    pub referrer_fee: i64,
    /// What is forwarded to the destination chain: the amount less the fee.
    pub amount_to_send: i64,
}

/// The fee of a deposit of `amount` under `b`, which must be valid.
pub fn compute_fee(b: &Binding, amount: i64) -> (fee: i128)
    requires
        b@.valid(),
        amount >= 0,
    ensures
        fee == fee_for(b@, amount as int),
        fee >= 0,
{
    let percent: i64 = if amount > b.threshold_fee {
        b.after_percent_fee
    } else {
        b.before_percent_fee
    };
    assert(0 <= amount as u128 * percent as u128 <= 0x4000_0000_0000_0000_0000_0000_0000_0000u128)
        by (nonlinear_arith)
        requires
            0 <= amount <= i64::MAX,
            0 <= percent <= i64::MAX,
    ;
    let product: u128 = amount as u128 * percent as u128;
    let share: u128 = product / (PERCENT_FACTOR as u128);
    b.min_fee as i128 + share as i128
}

/// Applies the fee model to a deposit: chooses the tier, computes the fee
/// and the referrer's share of it, and checks the deposit against the
/// binding. `referrer_percent` is the referrer's share in parts of
/// `PERCENT_FACTOR`, 0 where there is no referrer.
pub fn quote_deposit(b: &Binding, amount: i64, gasless_reward: i64, referrer_percent: i64) -> (r:
    Result<FeeQuote, BridgeError>)
    ensures
        match deposit_refusal(b@, amount as int, gasless_reward as int, referrer_percent as int) {
            Some(e) => r == Err::<FeeQuote, BridgeError>(e),
            None => r matches Ok(q) && q.fee == fee_for(b@, amount as int) && q.referrer_fee
                == referrer_share(referrer_percent as int, q.fee as int) && q.amount_to_send
                == amount - q.fee,
        },
        r matches Ok(q) ==> 0 <= q.referrer_fee <= q.fee && 0 < q.amount_to_send && q.fee >= 0,
{
    if amount <= 0 {
        return Err(BridgeError::InvalidAmount);
    }
    if !b.is_valid() {
        return Err(BridgeError::InvalidBinding);
    }
    if amount < b.min_amount {
        return Err(BridgeError::BelowMinimum);
    }
    if !b.enabled {
        return Err(BridgeError::BindingDisabled);
    }
    let wide_fee = compute_fee(b, amount);
    if amount as i128 <= wide_fee {
        return Err(BridgeError::FeeExceedsAmount);
    }
    let fee = wide_fee as i64;
    if referrer_percent < 0 || referrer_percent > MAX_REFERRER_FEE {
        return Err(BridgeError::InvalidReferrerFee);
    }
    assert(0 <= referrer_percent as u128 * fee as u128 <= fee as u128 * 200_000) by (
    nonlinear_arith)
        requires
            0 <= referrer_percent <= 200_000,
            0 <= fee,
    ;
    let referrer_fee = ((referrer_percent as u128 * fee as u128) / (PERCENT_FACTOR as u128)) as i64;
    assert(referrer_fee <= fee) by (nonlinear_arith)
        requires
            referrer_fee == (referrer_percent as u128 * fee as u128) / 1_000_000,
            0 <= referrer_percent <= 200_000,
            0 <= fee,
    ;
    let amount_to_send = amount - fee;
    if amount_to_send <= gasless_reward {
        return Err(BridgeError::AmountBelowGaslessReward);
    }
    Ok(FeeQuote { fee, referrer_fee, amount_to_send })
}

} // verus!
