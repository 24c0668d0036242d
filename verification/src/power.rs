//! The voting-power aggregator.
//!
//! External ledgers are queried at a fixed historical snapshot — the token
//! balance at the proposal's start block, the escrow power at the proposal's
//! start time, and the live vesting allocation — and the snapshot figures
//! are summed here with checked arithmetic into one voting-power value, for
//! one voter and for the whole electorate.  Overflow or underflow is a
//! reported error, never silently clamped.

use vstd::prelude::*;

use crate::error::ContractError;

verus! {

/// One voter's escrow-ledger snapshot figures, present only when an escrow
/// source is configured.
#[derive(Clone, Copy, Debug, PartialEq, Eq, Structural)]
pub struct EscrowVoterSnapshot {
    /// The voter's escrow voting power at the proposal's start time minus one.
    pub voting_power: u128,
    /// The voter's token amount locked in escrow at the proposal's start block.
    pub locked_amount: u128,
}

/// One voter's snapshot figures from all configured voting-power sources.
#[derive(Clone, Copy, Debug, PartialEq, Eq, Structural)]
pub struct VoterSnapshots {
    /// The voter's governance-token balance checkpointed before the
    /// proposal's start block.
    pub xastro_balance: u128,
    /// The voter's total vesting allocation, looked up live.
    pub vesting_amount: u128,
    /// The part of the vesting allocation already withdrawn.
    pub vesting_withdrawn: u128,
    /// The escrow figures, present exactly when an escrow source is
    /// configured.
    pub escrow: Option<EscrowVoterSnapshot>,
}

/// The electorate-wide snapshot figures from all configured sources.
#[derive(Clone, Copy, Debug, PartialEq, Eq, Structural)]
pub struct TotalSnapshots {
    /// The governance-token total supply at the proposal's start block minus
    /// one.
    pub xastro_supply: u128,
    /// The not-yet-withdrawn total of the vesting program.
    pub vesting_remaining: u128,
    /// The electorate-wide escrow voting power at the proposal's start time
    /// minus one, present exactly when an escrow source is configured.
    pub escrow_power: Option<u128>,
}

/// A voter's power: the token balance, plus the unwithdrawn part of a
/// non-zero vesting allocation, plus, when escrow is configured, the
/// non-zero escrow power and the escrow-locked amount.  `None` when a
/// checked step overflows or underflows.
pub open spec fn spec_voter_power(s: VoterSnapshots) -> Option<u128> {
    let base = s.xastro_balance as int;
    if s.vesting_amount != 0 && base + s.vesting_amount > u128::MAX {
        None
    } else if s.vesting_amount != 0 && base + s.vesting_amount - s.vesting_withdrawn < 0 {
        None
    } else {
        let vested = if s.vesting_amount != 0 {
            base + s.vesting_amount - s.vesting_withdrawn
        } else {
            base
        };
        match s.escrow {
            None => Some(vested as u128),
            Some(e) => {
                let boosted = if e.voting_power != 0 {
                    vested + e.voting_power
                } else {
                    vested
                };
                if boosted > u128::MAX {
                    None
                } else if boosted + e.locked_amount > u128::MAX {
                    None
                } else {
                    Some((boosted + e.locked_amount) as u128)
                }
            },
        }
    }
}

/// The electorate's total power: the token supply, plus the non-zero
/// remaining vesting total, plus, when escrow is configured, the non-zero
/// electorate-wide escrow power.  `None` when a checked step overflows.
pub open spec fn spec_total_power(t: TotalSnapshots) -> Option<u128> {
    let base = t.xastro_supply as int;
    if t.vesting_remaining != 0 && base + t.vesting_remaining > u128::MAX {
        None
    } else {
        let vested = if t.vesting_remaining != 0 {
            base + t.vesting_remaining
        } else {
            base
        };
        match t.escrow_power {
            None => Some(vested as u128),
            Some(p) => {
                if p != 0 && vested + p > u128::MAX {
                    None
                } else if p != 0 {
                    Some((vested + p) as u128)
                } else {
                    Some(vested as u128)
                }
            },
        }
    }
}

/// Sums one voter's snapshot figures into the voter's voting power with
/// checked arithmetic.
pub fn calc_voting_power(s: &VoterSnapshots) -> (r: Result<u128, ContractError>)
    ensures
        match spec_voter_power(*s) {
            Some(v) => r == Ok::<u128, ContractError>(v),
            None => r == Err::<u128, ContractError>(ContractError::Overflow),
        },
{
    let mut total = s.xastro_balance;
    if s.vesting_amount != 0 {
        total = match total.checked_add(s.vesting_amount) {
            Some(t) => t,
            None => {
                return Err(ContractError::Overflow);
            },
        };
        total = match total.checked_sub(s.vesting_withdrawn) {
            Some(t) => t,
            None => {
                return Err(ContractError::Overflow);
            },
        };
    }
    if let Some(escrow) = &s.escrow {
        if escrow.voting_power != 0 {
            total = match total.checked_add(escrow.voting_power) {
                Some(t) => t,
                None => {
                    return Err(ContractError::Overflow);
                },
            };
        }
        total = match total.checked_add(escrow.locked_amount) {
            Some(t) => t,
            None => {
                return Err(ContractError::Overflow);
            },
        };
    }
    Ok(total)
}

/// Sums the electorate-wide snapshot figures into the total eligible voting
/// power with checked arithmetic.
pub fn calc_total_voting_power_at(t: &TotalSnapshots) -> (r: Result<u128, ContractError>)
    ensures
        match spec_total_power(*t) {
            Some(v) => r == Ok::<u128, ContractError>(v),
            None => r == Err::<u128, ContractError>(ContractError::Overflow),
        },
{
    let mut total = t.xastro_supply;
    if t.vesting_remaining != 0 {
        total = match total.checked_add(t.vesting_remaining) {
            Some(v) => v,
            None => {
                return Err(ContractError::Overflow);
            },
        };
    }
    if let Some(power) = &t.escrow_power {
        if *power != 0 {
            total = match total.checked_add(*power) {
                Some(v) => v,
                None => {
                    return Err(ContractError::Overflow);
                },
            };
        }
    }
    Ok(total)
}

} // verus!
