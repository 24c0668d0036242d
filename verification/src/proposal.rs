//! Proposal records and their lifecycle statuses.

use vstd::prelude::*;

use crate::messages::ProposalMessage;

verus! {

/// The lifecycle status of a proposal.
///
/// `Active -> {Passed, Rejected}`; `Passed -> {Executed, InProgress}`;
/// `InProgress -> {Executed, Failed}`; `Expired` is reached by cleanup once
/// the execution window lapses.  No transition is reversible.
#[derive(Clone, Copy, Debug, PartialEq, Eq, Structural)]
pub enum ProposalStatus {
    Active,
    Passed,
    Rejected,
    InProgress,
    Executed,
    Failed,
    Expired,
}

impl ProposalStatus {
    /// A short text for the status, usable where the status must be shown.
    pub fn text(&self) -> (r: &'static str)
        ensures
            *self is Active ==> r@ == "active"@,
            *self is Passed ==> r@ == "passed"@,
            *self is Rejected ==> r@ == "rejected"@,
            *self is InProgress ==> r@ == "in_progress"@,
            *self is Executed ==> r@ == "executed"@,
            *self is Failed ==> r@ == "failed"@,
            *self is Expired ==> r@ == "expired"@,
    {
        match self {
            ProposalStatus::Active => "active",
            ProposalStatus::Passed => "passed",
            ProposalStatus::Rejected => "rejected",
            ProposalStatus::InProgress => "in_progress",
            ProposalStatus::Executed => "executed",
            ProposalStatus::Failed => "failed",
            ProposalStatus::Expired => "expired",
        }
    }
}

/// One proposal record: immutable identity, mutated only by the lifecycle
/// transitions, deleted once terminal and past the grace window.
#[derive(Debug)]
pub struct Proposal {
    /// Unique, monotonically increasing identifier.
    pub proposal_id: u64,
    /// Account that submitted the proposal.
    pub submitter: String,
    /// Lifecycle status.
    pub status: ProposalStatus,
    /// Accumulated voting power in favour.
    pub for_power: u128,
    /// Accumulated voting power against.
    pub against_power: u128,
    /// Accounts that voted in favour.
    pub for_voters: Vec<String>,
    /// Accounts that voted against.
    pub against_voters: Vec<String>,
    /// Block height at submission: the voting-power snapshot marker.
    pub start_block: u64,
    /// Timestamp (seconds) at submission: the escrow snapshot marker.
    pub start_time: u64,
    /// Last block of the voting period: `start_block + voting_period` at
    /// submission time.
    pub end_block: u64,
    /// Title of the proposal.
    pub title: String,
    /// Description of the proposal.
    pub description: String,
    /// Optional external link, validated against the whitelist.
    pub link: Option<String>,
    /// Optional ordered action list to execute if the proposal passes.
    pub messages: Option<Vec<ProposalMessage>>,
    /// Deposit locked with the submission, refunded when voting ends.
    pub deposit_amount: u128,
    /// Optional cross-chain channel for delegated execution.
    pub ibc_channel: Option<String>,
}

/// The action list as a ghost option of a sequence.
pub open spec fn opt_messages_view(m: Option<Vec<ProposalMessage>>) -> Option<
    Seq<ProposalMessage>,
> {
    match m {
        Some(v) => Some(v@),
        None => None,
    }
}

/// Whether two proposal records hold identical field values: scalar and
/// string fields are equal, and list fields hold the same elements in the
/// same order.
pub open spec fn proposal_matches(a: Proposal, b: Proposal) -> bool {
    &&& a.proposal_id == b.proposal_id
    &&& a.submitter == b.submitter
    &&& a.status == b.status
    &&& a.for_power == b.for_power
    &&& a.against_power == b.against_power
    &&& a.for_voters@ == b.for_voters@
    &&& a.against_voters@ == b.against_voters@
    &&& a.start_block == b.start_block
    &&& a.start_time == b.start_time
    &&& a.end_block == b.end_block
    &&& a.title == b.title
    &&& a.description == b.description
    &&& a.link == b.link
    &&& opt_messages_view(a.messages) == opt_messages_view(b.messages)
    &&& a.deposit_amount == b.deposit_amount
    &&& a.ibc_channel == b.ibc_channel
}

/// Whether no account occurs in both voter lists.
pub open spec fn voters_disjoint(a: Seq<Seq<char>>, b: Seq<Seq<char>>) -> bool {
    forall|i: int, j: int|
        0 <= i < a.len() && 0 <= j < b.len() ==> #[trigger] a[i] != #[trigger] b[j]
}

/// Well-formedness of one proposal: each account votes at most once, never
/// on both sides, and the submitter votes on neither side.
pub open spec fn proposal_wf(p: Proposal) -> bool {
    &&& p.for_voters.deep_view().no_duplicates()
    &&& p.against_voters.deep_view().no_duplicates()
    &&& voters_disjoint(p.for_voters.deep_view(), p.against_voters.deep_view())
    &&& !p.for_voters.deep_view().contains(p.submitter@)
    &&& !p.against_voters.deep_view().contains(p.submitter@)
}

/// Copies a list of account addresses.
pub(crate) fn clone_string_vec(v: &Vec<String>) -> (r: Vec<String>)
    ensures
        r@ == v@,
{
    let mut out: Vec<String> = Vec::new();
    let mut i: usize = 0;
    while i < v.len()
        invariant
            i <= v@.len(),
            out@ == v@.take(i as int),
        decreases v@.len() - i,
    {
        out.push(v[i].clone());
        proof {
            assert(out@ =~= v@.take(i + 1));
        }
        i = i + 1;
    }
    proof {
        assert(v@.take(v@.len() as int) =~= v@);
    }
    out
}

/// Copies an optional string.
pub(crate) fn clone_opt_string(v: &Option<String>) -> (r: Option<String>)
    ensures
        r == *v,
{
    match v {
        Some(s) => Some(s.clone()),
        None => None,
    }
}

/// Copies an action list.
pub(crate) fn clone_messages(v: &Vec<ProposalMessage>) -> (r: Vec<ProposalMessage>)
    ensures
        r@ == v@,
{
    let mut out: Vec<ProposalMessage> = Vec::new();
    let mut i: usize = 0;
    while i < v.len()
        invariant
            i <= v@.len(),
            out@ == v@.take(i as int),
        decreases v@.len() - i,
    {
        out.push(v[i].clone());
        proof {
            assert(out@ =~= v@.take(i + 1));
        }
        i = i + 1;
    }
    proof {
        assert(v@.take(v@.len() as int) =~= v@);
    }
    out
}

impl Clone for Proposal {
    fn clone(&self) -> (r: Self)
        ensures
            proposal_matches(r, *self),
    {
        Proposal {
            proposal_id: self.proposal_id,
            submitter: self.submitter.clone(),
            status: self.status,
            for_power: self.for_power,
            against_power: self.against_power,
            for_voters: clone_string_vec(&self.for_voters),
            against_voters: clone_string_vec(&self.against_voters),
            start_block: self.start_block,
            start_time: self.start_time,
            end_block: self.end_block,
            title: self.title.clone(),
            description: self.description.clone(),
            link: clone_opt_string(&self.link),
            messages: match &self.messages {
                Some(m) => Some(clone_messages(m)),
                None => None,
            },
            deposit_amount: self.deposit_amount,
            ibc_channel: clone_opt_string(&self.ibc_channel),
        }
    }
}

/// One cast vote: the chosen option and the power it contributed.
#[derive(Clone, Copy, Debug, PartialEq, Eq, Structural)]
pub struct ProposalVote {
    /// Voted option for the proposal.
    pub option: ProposalVoteOption,
    /// Power of the vote.
    pub power: u128,
}

/// The vote totals of one proposal.
#[derive(Clone, Copy, Debug, PartialEq, Eq, Structural)]
pub struct ProposalVotesResponse {
    /// The proposal's identifier.
    pub proposal_id: u64,
    /// Accumulated voting power in favour.
    pub for_power: u128,
    /// Accumulated voting power against.
    pub against_power: u128,
}

/// A voting option: for or against a proposal.
#[derive(Clone, Copy, Debug, PartialEq, Eq, Structural)]
pub enum ProposalVoteOption {
    For,
    Against,
}

impl ProposalVoteOption {
    /// A short text for the vote option, usable where it must be shown.
    pub fn text(&self) -> (r: &'static str)
        ensures
            *self is For ==> r@ == "for"@,
            *self is Against ==> r@ == "against"@,
    {
        match self {
            ProposalVoteOption::For => "for",
            ProposalVoteOption::Against => "against",
        }
    }
}

} // verus!
