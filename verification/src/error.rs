//! The error taxonomy of the governance engine.
//!
//! Every fallible operation reports one of these kinds synchronously to its
//! caller; no error is swallowed or retried internally.

use vstd::prelude::*;

use crate::proposal::ProposalStatus;

verus! {

/// Errors returned by the governance operations.
#[derive(Clone, Debug, PartialEq)]
pub enum ContractError {
    /// Checked arithmetic on powers or amounts overflowed or underflowed.
    Overflow,
    /// No stored proposal has the requested identifier.
    ProposalNotFound,
    /// The caller is not allowed to perform the requested operation.
    Unauthorized,
    /// The deposit sent with a submission is below the configured minimum.
    InsufficientDeposit,
    /// The proposal is not in the `Active` status.
    ProposalNotActive,
    /// The current block is past the proposal's voting end block.
    VotingPeriodEnded,
    /// The caller has already voted on this proposal.
    UserAlreadyVoted,
    /// The caller's computed voting power is zero.
    NoVotingPower,
    /// The proposal's voting end block has not been passed yet.
    VotingPeriodNotEnded,
    /// The execution window has lapsed; execution is permanently barred.
    ExecuteProposalExpired,
    /// The proposal is not in the `Passed` status.
    ProposalNotPassed,
    /// The proposal is neither `Expired` nor `Rejected`, so it cannot be removed.
    ProposalNotCompleted,
    /// The mandatory delay after the voting end block has not elapsed yet.
    ProposalDelayNotEnded,
    /// The whitelist of allowed link prefixes would be (or is) empty.
    WhitelistEmpty,
    /// The proposal's link does not start with any whitelisted prefix.
    LinkNotWhitelisted,
    /// The required quorum ratio is above one.
    InvalidProposalRequiredQuorum,
    /// The required threshold ratio is above one.
    InvalidProposalRequiredThreshold,
    /// The dry-run sentinel: message validation passed and nothing was committed.
    MessagesCheckPassed,
    /// The cross-chain controller does not list the given channel.
    InvalidChannel(String),
    /// A cross-chain channel was requested but no controller is configured.
    MissingIBCController,
    /// The completion callback came from an account that is not the controller.
    InvalidIBCController,
    /// The proposal is not `InProgress`, so its status cannot be updated.
    NotUpdatedProposalStatus,
    /// The controller reported a status other than `Executed` or `Failed`.
    InvalidIBCProposalStatus(ProposalStatus),
}

impl ContractError {
    /// A short text for the error kind, usable where the error must be shown.
    pub fn text(&self) -> &'static str {
        match self {
            ContractError::Overflow => "overflow",
            ContractError::ProposalNotFound => "proposal not found",
            ContractError::Unauthorized => "unauthorized",
            ContractError::InsufficientDeposit => "insufficient token deposit",
            ContractError::ProposalNotActive => "proposal not active",
            ContractError::VotingPeriodEnded => "voting period ended",
            ContractError::UserAlreadyVoted => "user already voted",
            ContractError::NoVotingPower => "no voting power",
            ContractError::VotingPeriodNotEnded => "voting period not ended",
            ContractError::ExecuteProposalExpired => "proposal expired",
            ContractError::ProposalNotPassed => "proposal not passed",
            ContractError::ProposalNotCompleted => "proposal not completed",
            ContractError::ProposalDelayNotEnded => "proposal delay not ended",
            ContractError::WhitelistEmpty => "whitelist cannot be empty",
            ContractError::LinkNotWhitelisted => "link is not whitelisted",
            ContractError::InvalidProposalRequiredQuorum => "invalid required quorum",
            ContractError::InvalidProposalRequiredThreshold => "invalid required threshold",
            ContractError::MessagesCheckPassed => "messages check passed",
            ContractError::InvalidChannel(_) => "invalid channel",
            ContractError::MissingIBCController => "ibc controller is not set",
            ContractError::InvalidIBCController => "invalid ibc controller",
            ContractError::NotUpdatedProposalStatus => "proposal status cannot be updated",
            ContractError::InvalidIBCProposalStatus(_) => "invalid ibc proposal status",
        }
    }
}

} // verus!
