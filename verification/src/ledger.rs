//! Credit ledger: computes the cost of a classification call over a snapshot
//! of an account's balance and decides whether the call may proceed. The
//! ledger performs no storage work of its own; the caller commits the new
//! balance it returns.

use vstd::prelude::*;

use crate::errors::CreditError;
use crate::moderate::{model_cost, ModerationModel};

verus! {

/// A snapshot of an account's credit balance: what is left this period and
/// the monthly cap it resets to.
#[derive(Clone, Copy, Debug)]
pub struct CreditState {
    pub remaining_credits: i64,
    pub max_monthly_credits: i64,
}

impl CreditState {
    /// A balance never goes negative: a charge that would exceed it is
    /// refused, not clamped.
    pub open spec fn wf(&self) -> bool {
        0 <= self.remaining_credits
    }
}

/// What a charge of `cost` does to a balance: the new balance when it fits,
/// a refusal (and no change) when it does not.
pub open spec fn apply_charge(remaining: int, cost: int) -> Result<int, CreditError> {
    if cost <= remaining {
        Ok(remaining - cost)
    } else {
        Err(CreditError::InsufficientCredits)
    }
}

/// The cost of classifying `byte_length` bytes with a concrete model.
pub open spec fn charge_cost(model: ModerationModel, byte_length: int) -> int {
    byte_length * model_cost(model)
}

/// A charge result with its machine balance widened to a mathematical
/// integer, so it can be compared against `apply_charge`.
pub open spec fn balance_view(r: Result<i64, CreditError>) -> Result<int, CreditError> {
    match r {
        Ok(b) => Ok(b as int),
        Err(e) => Err(e),
    }
}

/// Charges an account snapshot for classifying `byte_length` bytes with the
/// given concrete model. Returns the new balance to commit, or refuses with
/// `InsufficientCredits` when the cost exceeds the remaining balance; the
/// snapshot itself is never altered.
pub fn charge(state: &CreditState, model: ModerationModel, byte_length: usize) -> (r: Result<
    i64,
    CreditError,
>)
    requires
        !(model is Auto),
        state.wf(),
    ensures
        balance_view(r) == apply_charge(
            state.remaining_credits as int,
            charge_cost(model, byte_length as int),
        ),
        r matches Ok(b) ==> 0 <= b <= state.remaining_credits,
{
    let per_byte: i64 = model.credits_per_byte();
    proof {
        assert((byte_length as u128) * (per_byte as u128) <= 0xFFFF_FFFF_FFFF_FFFFu128 * 9)
            by (nonlinear_arith)
            requires
                0 <= byte_length as u128 <= 0xFFFF_FFFF_FFFF_FFFFu128,
                0 <= per_byte as u128 <= 9,
        ;
    }
    let cost: u128 = (byte_length as u128) * (per_byte as u128);
    proof {
        assert((byte_length as u128) * (per_byte as u128) == charge_cost(
            model,
            byte_length as int,
        )) by (nonlinear_arith)
            requires
                0 <= byte_length as u128,
                0 < per_byte as u128 <= 9,
                per_byte == model_cost(model),
                byte_length as u128 == byte_length as int,
                per_byte as u128 == model_cost(model),
        ;
    }
    if cost <= state.remaining_credits as u128 {
        Ok(state.remaining_credits - (cost as i64))
    } else {
        Err(CreditError::InsufficientCredits)
    }
}

/// Law: a charge of exactly the remaining balance succeeds and empties it;
/// a charge of one credit more is refused.
pub proof fn lemma_charge_boundary(remaining: int, cost: int)
    ensures
        cost == remaining ==> apply_charge(remaining, cost) == Ok::<int, CreditError>(0),
        cost == remaining + 1 ==> apply_charge(remaining, cost) == Err::<int, CreditError>(
            CreditError::InsufficientCredits,
        ),
{
}

} // verus!
