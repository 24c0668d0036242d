//! The vesting (builder unlock) ledger's data model.
//!
//! The governance engine consumes this ledger only at its boundary — a
//! per-account allocation lookup and a global remaining-total lookup — but
//! the allocation records themselves, with their validation and schedule
//! update rules, are plain data and live here.

use vstd::prelude::*;

verus! {

/// General parameters of the vesting ledger.
#[derive(Clone, Debug)]
pub struct Config {
    /// Account that can create new unlock schedules.
    pub owner: String,
    /// Address of the vested token.
    pub astro_token: String,
    /// Maximum amount of tokens to allocate.
    pub max_allocations_amount: u128,
}

/// The total and remaining amounts to be unlocked by all accounts.
#[derive(Clone, Copy, Debug, PartialEq, Eq, Structural, Default)]
pub struct State {
    /// Amount of tokens deposited into the ledger.
    pub total_astro_deposited: u128,
    /// Tokens that still need to be unlocked and/or withdrawn.
    pub remaining_astro_tokens: u128,
    /// Deposited tokens not assigned to any allocation.
    pub unallocated_tokens: u128,
}

/// One unlock schedule.
#[derive(Clone, Copy, Debug, PartialEq, Eq, Structural, Default)]
pub struct Schedule {
    /// Timestamp for the start of the unlock schedule, in seconds.
    pub start_time: u64,
    /// Cliff period during which no tokens can be withdrawn.
    pub cliff: u64,
    /// Time after the cliff during which the remaining tokens linearly
    /// unlock.
    pub duration: u64,
}

/// Why an allocation is rejected or a schedule update refused.
#[derive(Clone, Copy, Debug, PartialEq, Eq, Structural)]
pub enum AllocationError {
    /// The cliff must be strictly less than the duration.
    CliffNotBelowDuration,
    /// The allocated amount must not be zero.
    AmountIsZero,
    /// A proposed receiver must not be set in advance.
    ProposedReceiverSet,
    /// The new cliff must not be below the old one.
    CliffDecreased,
    /// The new start time must not be below the old one.
    StartTimeDecreased,
    /// The new duration must not be below the old one.
    DurationDecreased,
}

/// One account's allocation parameters.
#[derive(Clone, Debug)]
pub struct AllocationParams {
    /// Total amount of tokens allocated to the account.
    pub amount: u128,
    /// Parameters controlling the unlocking process.
    pub unlock_schedule: Schedule,
    /// Proposed new receiver of the allocation, if any.
    pub proposed_receiver: Option<String>,
}

impl AllocationParams {
    /// Validates an allocation: the cliff must be below the duration, the
    /// amount must be non-zero, and no receiver change may be proposed.
    pub fn validate(&self, _account: &str) -> (r: Result<(), AllocationError>)
        ensures
            match r {
                Ok(_) => self.unlock_schedule.cliff < self.unlock_schedule.duration && self.amount
                    != 0 && self.proposed_receiver is None,
                Err(e) => {
                    &&& (e == AllocationError::CliffNotBelowDuration || e
                        == AllocationError::AmountIsZero || e
                        == AllocationError::ProposedReceiverSet)
                    &&& (e == AllocationError::CliffNotBelowDuration <==> self.unlock_schedule.cliff
                        >= self.unlock_schedule.duration)
                    &&& (e == AllocationError::AmountIsZero <==> self.unlock_schedule.cliff
                        < self.unlock_schedule.duration && self.amount == 0)
                    &&& (e == AllocationError::ProposedReceiverSet <==> self.unlock_schedule.cliff
                        < self.unlock_schedule.duration && self.amount != 0
                        && self.proposed_receiver is Some)
                },
            },
    {
        if self.unlock_schedule.cliff >= self.unlock_schedule.duration {
            return Err(AllocationError::CliffNotBelowDuration);
        }
        if self.amount == 0 {
            return Err(AllocationError::AmountIsZero);
        }
        if self.proposed_receiver.is_some() {
            return Err(AllocationError::ProposedReceiverSet);
        }
        Ok(())
    }

    /// Replaces the unlock schedule.  Each of the new start time, cliff and
    /// duration must be at least the old one.
    pub fn update_schedule(&mut self, new_schedule: Schedule, _account: &str) -> (r: Result<
        (),
        AllocationError,
    >)
        ensures
            match r {
                Ok(_) => {
                    &&& new_schedule.cliff >= old(self).unlock_schedule.cliff
                    &&& new_schedule.start_time >= old(self).unlock_schedule.start_time
                    &&& new_schedule.duration >= old(self).unlock_schedule.duration
                    &&& final(self).unlock_schedule == new_schedule
                    &&& final(self).amount == old(self).amount
                    &&& final(self).proposed_receiver == old(self).proposed_receiver
                },
                Err(e) => {
                    &&& *final(self) == *old(self)
                    &&& (e == AllocationError::CliffDecreased || e
                        == AllocationError::StartTimeDecreased || e
                        == AllocationError::DurationDecreased)
                    &&& (e == AllocationError::CliffDecreased <==> new_schedule.cliff < old(
                        self,
                    ).unlock_schedule.cliff)
                    &&& (e == AllocationError::StartTimeDecreased <==> new_schedule.cliff >= old(
                        self,
                    ).unlock_schedule.cliff && new_schedule.start_time < old(
                        self,
                    ).unlock_schedule.start_time)
                    &&& (e == AllocationError::DurationDecreased <==> new_schedule.cliff >= old(
                        self,
                    ).unlock_schedule.cliff && new_schedule.start_time >= old(
                        self,
                    ).unlock_schedule.start_time && new_schedule.duration < old(
                        self,
                    ).unlock_schedule.duration)
                },
            },
    {
        if new_schedule.cliff < self.unlock_schedule.cliff {
            return Err(AllocationError::CliffDecreased);
        }
        if new_schedule.start_time < self.unlock_schedule.start_time {
            return Err(AllocationError::StartTimeDecreased);
        }
        if new_schedule.duration < self.unlock_schedule.duration {
            return Err(AllocationError::DurationDecreased);
        }
        self.unlock_schedule = new_schedule;
        Ok(())
    }
}

/// The withdrawal status of one allocation.
#[derive(Clone, Copy, Debug, PartialEq, Eq, Structural, Default)]
pub struct AllocationStatus {
    /// Amount already withdrawn.
    pub astro_withdrawn: u128,
    /// Already unlocked amount after decreasing.
    pub unlocked_amount_checkpoint: u128,
}

impl AllocationStatus {
    /// A fresh status: nothing withdrawn, no checkpoint.
    pub fn new() -> (r: Self)
        ensures
            r.astro_withdrawn == 0,
            r.unlocked_amount_checkpoint == 0,
    {
        AllocationStatus { astro_withdrawn: 0, unlocked_amount_checkpoint: 0 }
    }
}

/// The queries the vesting ledger answers.
#[derive(Clone, Debug)]
pub enum QueryMsg {
    /// The ledger's configuration.
    Config {},
    /// The ledger's state: deposited, remaining and unallocated totals.
    State {},
    /// The parameters and current status of an account's allocation.
    Allocation {
        /// Account whose allocation is queried.
        account: String,
    },
    /// The unlocked tokens of an account's allocation.
    UnlockedTokens {
        /// Account whose unlocked amount is queried.
        account: String,
    },
    /// How many tokens a withdrawal attempt would release.
    SimulateWithdraw {
        /// Account for which the withdrawal is simulated.
        account: String,
        /// Timestamp at which the withdrawal is simulated.
        timestamp: Option<u64>,
    },
    /// A page of the stored allocations.
    Allocations {
        /// Account to start the page after.
        start_after: Option<String>,
        /// Page size.
        limit: Option<u32>,
    },
}

/// The answer to an allocation query.
#[derive(Clone, Debug)]
pub struct AllocationResponse {
    /// The allocation parameters.
    pub params: AllocationParams,
    /// The allocation status.
    pub status: AllocationStatus,
}

/// The answer to a withdrawal simulation.
#[derive(Clone, Copy, Debug, PartialEq, Eq, Structural)]
pub struct SimulateWithdrawResponse {
    /// Amount of tokens the withdrawal would release.
    pub astro_to_withdraw: u128,
}

/// The answer to a state query.
#[derive(Clone, Copy, Debug, PartialEq, Eq, Structural)]
pub struct StateResponse {
    /// Tokens deposited into the ledger and meant to unlock.
    pub total_astro_deposited: u128,
    /// Tokens not yet withdrawn from the ledger.
    pub remaining_astro_tokens: u128,
    /// Tokens the owner can still withdraw or allocate.
    pub unallocated_astro_tokens: u128,
}

} // verus!
