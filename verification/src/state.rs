//! The governance state and its lifecycle transitions.
//!
//! The state is an arena: a monotonic proposal-id generator plus the stored
//! proposal records, ascending by identifier, together with the
//! configuration singleton.  Every external trigger — submit, vote, end,
//! execute, remove, completion callback, config update — runs to completion
//! atomically: it either returns `Ok` with the described state change, or an
//! error with the state unchanged.

use vstd::prelude::*;

use crate::config::{
    config_wf, link_whitelisted, link_allowed, spec_apply_whitelist, spec_updated_config,
    config_matches_except_links, updated_config, Config, UpdateConfig,
};
use crate::error::ContractError;
use crate::messages::ProposalMessage;
use crate::ratio::{spec_ratio_atomics, Ratio, RATIO_DENOMINATOR};
use crate::proposal::{
    clone_messages, clone_opt_string, proposal_matches, proposal_wf, Proposal, ProposalStatus,
    ProposalVoteOption, ProposalVotesResponse,
};
use crate::seq_util::{contains_string, lemma_filter_push, lemma_take_push};

verus! {

/// Default page size of the proposal list query.
pub const DEFAULT_LIMIT: u32 = 10;

/// Hard maximum page size of the proposal list query.
pub const MAX_LIMIT: u32 = 30;

/// The whole governance state: the configuration singleton, the proposal
/// counter and the stored proposals.
#[derive(Debug)]
pub struct GovState {
    /// The governance parameters.
    pub config: Config,
    /// The last assigned proposal identifier; identifiers start at one.
    pub proposal_count: u64,
    /// The stored proposals, in ascending identifier order.
    pub proposals: Vec<Proposal>,
}

impl GovState {
    /// Well-formedness: the configuration is valid, the stored proposals
    /// are strictly ascending by identifier, every identifier is between
    /// one and the counter, and every proposal is well-formed.
    pub open spec fn wf(self) -> bool {
        &&& config_wf(self.config)
        &&& forall|i: int, j: int|
            0 <= i < j < self.proposals@.len() ==> (#[trigger] self.proposals@[i]).proposal_id < (
            #[trigger] self.proposals@[j]).proposal_id
        &&& forall|i: int|
            0 <= i < self.proposals@.len() ==> 1 <= (#[trigger] self.proposals@[i]).proposal_id
                <= self.proposal_count
        &&& forall|i: int|
            0 <= i < self.proposals@.len() ==> proposal_wf(#[trigger] self.proposals@[i])
    }

    /// Whether a proposal with this identifier is stored.
    pub open spec fn spec_has_proposal(self, proposal_id: u64) -> bool {
        exists|i: int|
            0 <= i < self.proposals@.len() && (#[trigger] self.proposals@[i]).proposal_id
                == proposal_id
    }

    /// The index of the proposal with this identifier.
    pub open spec fn spec_proposal_index(self, proposal_id: u64) -> int {
        choose|i: int|
            0 <= i < self.proposals@.len() && (#[trigger] self.proposals@[i]).proposal_id
                == proposal_id
    }

    /// The stored proposal with this identifier.
    pub open spec fn spec_proposal(self, proposal_id: u64) -> Proposal {
        self.proposals@[self.spec_proposal_index(proposal_id)]
    }

    /// Creates the initial governance state from a validated configuration,
    /// with no proposals and the identifier counter at zero.
    pub fn new(config: Config) -> (r: Result<GovState, ContractError>)
        ensures
            match r {
                Ok(s) => {
                    &&& config_wf(config)
                    &&& s.config == config
                    &&& s.proposal_count == 0
                    &&& s.proposals@.len() == 0
                    &&& s.wf()
                },
                Err(e) => {
                    &&& !config_wf(config)
                    &&& (e == ContractError::WhitelistEmpty <==> config.whitelisted_links@.len()
                        == 0)
                    &&& (e == ContractError::InvalidProposalRequiredQuorum <==> config
                        .whitelisted_links@.len() > 0
                        && !config.proposal_required_quorum.spec_at_most_one())
                    &&& (e == ContractError::InvalidProposalRequiredThreshold <==> config
                        .whitelisted_links@.len() > 0
                        && config.proposal_required_quorum.spec_at_most_one()
                        && !config.proposal_required_threshold.spec_at_most_one())
                },
            },
    {
        match config.validate() {
            Ok(_) => Ok(GovState { config, proposal_count: 0, proposals: Vec::new() }),
            Err(e) => Err(e),
        }
    }

    /// Finds the index of the stored proposal with this identifier.
    fn find_proposal(&self, proposal_id: u64) -> (r: Option<usize>)
        requires
            self.wf(),
        ensures
            match r {
                Some(ix) => ix < self.proposals@.len() && self.proposals@[
                    ix as int
                ].proposal_id == proposal_id && ix as int == self.spec_proposal_index(proposal_id)
                    && self.spec_has_proposal(proposal_id),
                None => !self.spec_has_proposal(proposal_id),
            },
    {
        let mut i: usize = 0;
        while i < self.proposals.len()
            invariant
                self.wf(),
                i <= self.proposals@.len(),
                forall|k: int|
                    0 <= k < i ==> (#[trigger] self.proposals@[k]).proposal_id != proposal_id,
            decreases self.proposals@.len() - i,
        {
            if self.proposals[i].proposal_id == proposal_id {
                proof {
                    assert(self.spec_has_proposal(proposal_id));
                    let j = self.spec_proposal_index(proposal_id);
                    assert(0 <= j < self.proposals@.len() && self.proposals@[j].proposal_id
                        == proposal_id);
                    if j != i as int {
                        if j < i as int {
                            assert(self.proposals@[j].proposal_id < self.proposals@[
                                i as int
                            ].proposal_id);
                        } else {
                            assert(self.proposals@[i as int].proposal_id < self.proposals@[
                                j
                            ].proposal_id);
                        }
                    }
                }
                return Some(i);
            }
            i = i + 1;
        }
        None
    }

    /// The configuration, read-only.
    pub fn query_config(&self) -> (r: &Config)
        ensures
            *r == self.config,
    {
        &self.config
    }

    /// A copy of the stored proposal with this identifier.
    pub fn query_proposal(&self, proposal_id: u64) -> (r: Result<Proposal, ContractError>)
        requires
            self.wf(),
        ensures
            match r {
                Ok(p) => self.spec_has_proposal(proposal_id) && proposal_matches(
                    p,
                    self.spec_proposal(proposal_id),
                ),
                Err(e) => !self.spec_has_proposal(proposal_id) && e
                    == ContractError::ProposalNotFound,
            },
    {
        match self.find_proposal(proposal_id) {
            Some(ix) => Ok(self.proposals[ix].clone()),
            None => Err(ContractError::ProposalNotFound),
        }
    }

    /// The vote totals of the stored proposal with this identifier.
    pub fn query_proposal_votes(&self, proposal_id: u64) -> (r: Result<
        ProposalVotesResponse,
        ContractError,
    >)
        requires
            self.wf(),
        ensures
            match r {
                Ok(v) => {
                    &&& self.spec_has_proposal(proposal_id)
                    &&& v.proposal_id == proposal_id
                    &&& v.for_power == self.spec_proposal(proposal_id).for_power
                    &&& v.against_power == self.spec_proposal(proposal_id).against_power
                },
                Err(e) => !self.spec_has_proposal(proposal_id) && e
                    == ContractError::ProposalNotFound,
            },
    {
        match self.find_proposal(proposal_id) {
            Some(ix) => {
                let p = &self.proposals[ix];
                Ok(
                    ProposalVotesResponse {
                        proposal_id,
                        for_power: p.for_power,
                        against_power: p.against_power,
                    },
                )
            },
            None => Err(ContractError::ProposalNotFound),
        }
    }
}

/// Mutable access to one stored proposal.
fn proposal_mut(v: &mut Vec<Proposal>, i: usize) -> (element: &mut Proposal)
    requires
        i < old(v).len(),
    ensures
        *element == old(v)@[i as int],
        final(v)@ == old(v)@.update(i as int, *final(element)),
{
    &mut v[i]
}

/// The accumulated power of the side the vote is for.
pub open spec fn tally_of(p: Proposal, vote: ProposalVoteOption) -> u128 {
    match vote {
        ProposalVoteOption::For => p.for_power,
        ProposalVoteOption::Against => p.against_power,
    }
}

/// Whether `p2` is `p` with one vote applied: the chosen side's power grew
/// by `power`, the voter joined the chosen side's voter list, and every
/// other field is unchanged.
pub open spec fn spec_vote_applied(
    p2: Proposal,
    p: Proposal,
    voter: Seq<char>,
    vote: ProposalVoteOption,
    power: u128,
) -> bool {
    &&& p2.proposal_id == p.proposal_id
    &&& p2.submitter == p.submitter
    &&& p2.status == p.status
    &&& (vote is For ==> {
        &&& p2.for_power == p.for_power + power
        &&& p2.for_voters.deep_view() == p.for_voters.deep_view().push(voter)
        &&& p2.against_power == p.against_power
        &&& p2.against_voters == p.against_voters
    })
    &&& (vote is Against ==> {
        &&& p2.against_power == p.against_power + power
        &&& p2.against_voters.deep_view() == p.against_voters.deep_view().push(voter)
        &&& p2.for_power == p.for_power
        &&& p2.for_voters == p.for_voters
    })
    &&& p2.start_block == p.start_block
    &&& p2.start_time == p.start_time
    &&& p2.end_block == p.end_block
    &&& p2.title == p.title
    &&& p2.description == p.description
    &&& p2.link == p.link
    &&& p2.messages == p.messages
    &&& p2.deposit_amount == p.deposit_amount
    &&& p2.ibc_channel == p.ibc_channel
}

/// Applying a vote by a fresh voter who is not the submitter preserves the
/// proposal's well-formedness.
pub proof fn lemma_vote_preserves_wf(
    p2: Proposal,
    p: Proposal,
    voter: Seq<char>,
    vote: ProposalVoteOption,
    power: u128,
)
    requires
        proposal_wf(p),
        spec_vote_applied(p2, p, voter, vote, power),
        !p.for_voters.deep_view().contains(voter),
        !p.against_voters.deep_view().contains(voter),
        p.submitter@ != voter,
    ensures
        proposal_wf(p2),
{
    let fv = p.for_voters.deep_view();
    let av = p.against_voters.deep_view();
    match vote {
        ProposalVoteOption::For => {
            crate::seq_util::lemma_no_dups_push(fv, voter);
            let fv2 = p2.for_voters.deep_view();
            assert(fv2 == fv.push(voter));
            assert forall|i: int, j: int|
                0 <= i < fv2.len() && 0 <= j < av.len() implies #[trigger] fv2[i] != #[trigger] av[
                j
            ] by {
                if i < fv.len() {
                } else {
                    assert(fv2[i] == voter);
                    if av[j] == voter {
                        assert(av.contains(voter));
                    }
                }
            }
            assert(!fv2.contains(p2.submitter@)) by {
                if fv2.contains(p2.submitter@) {
                    let k = choose|k: int| 0 <= k < fv2.len() && fv2[k] == p2.submitter@;
                    if k < fv.len() {
                        assert(fv.contains(p.submitter@));
                    }
                }
            }
        },
        ProposalVoteOption::Against => {
            crate::seq_util::lemma_no_dups_push(av, voter);
            let av2 = p2.against_voters.deep_view();
            assert(av2 == av.push(voter));
            assert forall|i: int, j: int|
                0 <= i < fv.len() && 0 <= j < av2.len() implies #[trigger] fv[i] != #[trigger] av2[
                j
            ] by {
                if j < av.len() {
                } else {
                    assert(av2[j] == voter);
                    if fv[i] == voter {
                        assert(fv.contains(voter));
                    }
                }
            }
            assert(!av2.contains(p2.submitter@)) by {
                if av2.contains(p2.submitter@) {
                    let k = choose|k: int| 0 <= k < av2.len() && av2[k] == p2.submitter@;
                    if k < av.len() {
                        assert(av.contains(p.submitter@));
                    }
                }
            }
        },
    }
}

/// Replacing one stored proposal with a well-formed record carrying the
/// same identifier preserves the state's well-formedness.
proof fn lemma_wf_update(s0: GovState, s1: GovState, ix: int, p2: Proposal)
    requires
        s0.wf(),
        0 <= ix < s0.proposals@.len(),
        s1.proposals@ == s0.proposals@.update(ix, p2),
        s1.config == s0.config,
        s1.proposal_count == s0.proposal_count,
        p2.proposal_id == s0.proposals@[ix].proposal_id,
        proposal_wf(p2),
    ensures
        s1.wf(),
{
    assert forall|i: int, j: int| 0 <= i < j < s1.proposals@.len() implies (
    #[trigger] s1.proposals@[i]).proposal_id < (#[trigger] s1.proposals@[j]).proposal_id by {
        assert(s0.proposals@[i].proposal_id < s0.proposals@[j].proposal_id);
    }
    assert forall|i: int| 0 <= i < s1.proposals@.len() implies 1 <= (
    #[trigger] s1.proposals@[i]).proposal_id <= s1.proposal_count && proposal_wf(
        s1.proposals@[i],
    ) by {
        assert(1 <= s0.proposals@[i].proposal_id <= s0.proposal_count);
        assert(proposal_wf(s0.proposals@[i]));
    }
}

/// The queries the governance contract answers.
#[derive(Clone, Debug)]
pub enum QueryMsg {
    /// The governance configuration.
    Config {},
    /// A page of the stored proposals.
    Proposals {
        /// First identifier of the page, inclusive.
        start: Option<u64>,
        /// Page size.
        limit: Option<u32>,
    },
    /// One proposal by identifier.
    Proposal {
        /// The proposal's identifier.
        proposal_id: u64,
    },
    /// One proposal's vote totals.
    ProposalVotes {
        /// The proposal's identifier.
        proposal_id: u64,
    },
    /// An account's voting power for one proposal.
    UserVotingPower {
        /// The account whose power is queried.
        user: String,
        /// The proposal's identifier.
        proposal_id: u64,
    },
    /// The total eligible voting power for one proposal.
    TotalVotingPower {
        /// The proposal's identifier.
        proposal_id: u64,
    },
}

/// The payload attached to the governance token transfer that submits a
/// proposal.
#[derive(Debug)]
pub enum Cw20HookMsg {
    /// Submit a new proposal, locking the transferred deposit.
    SubmitProposal {
        /// Title of the proposal.
        title: String,
        /// Description of the proposal.
        description: String,
        /// Optional external link.
        link: Option<String>,
        /// Optional ordered action list.
        messages: Option<Vec<ProposalMessage>>,
        /// Optional cross-chain channel for delegated execution.
        ibc_channel: Option<String>,
    },
}

/// Checks that the cross-chain controller supports the given channel,
/// against the controller's queried channel list.
pub fn check_controller_supports_channel(channels: &Vec<String>, given_channel: &String) -> (r:
    Result<(), ContractError>)
    ensures
        match r {
            Ok(_) => channels.deep_view().contains(given_channel@),
            Err(e) => !channels.deep_view().contains(given_channel@) && e
                == ContractError::InvalidChannel(*given_channel),
        },
{
    if contains_string(channels, given_channel) {
        Ok(())
    } else {
        Err(ContractError::InvalidChannel(given_channel.clone()))
    }
}

/// One page of the proposal list.
#[derive(Debug)]
pub struct ProposalListResponse {
    /// The last assigned proposal identifier.
    pub proposal_count: u64,
    /// The requested page, ascending by identifier.
    pub proposal_list: Vec<Proposal>,
}

/// The predicate holding of the proposals whose identifier is at least
/// `from`.
pub open spec fn id_at_least(from: u64) -> spec_fn(Proposal) -> bool {
    |p: Proposal| p.proposal_id >= from
}

/// The page size: the requested limit, or the default when none is given,
/// capped by the hard maximum.
pub open spec fn spec_page_limit(limit: Option<u32>) -> int {
    let l = match limit {
        Some(l) => l,
        None => DEFAULT_LIMIT,
    };
    if l <= MAX_LIMIT {
        l as int
    } else {
        MAX_LIMIT as int
    }
}

/// Whether two proposal lists hold identical field values entry by entry.
pub open spec fn proposals_match_seq(a: Seq<Proposal>, b: Seq<Proposal>) -> bool {
    a.len() == b.len() && forall|i: int|
        0 <= i < a.len() ==> proposal_matches(#[trigger] a[i], b[i])
}

/// What executing a passed proposal dispatches.
#[derive(Debug)]
pub enum ExecuteOutcome {
    /// Run the instructions locally, in ascending order-key order.
    Local {
        /// The proposal's actions, sorted by ascending order key.
        messages: Vec<ProposalMessage>,
    },
    /// Forward the ordered action list to the cross-chain controller; the
    /// proposal stays `InProgress` until the controller reports completion.
    Remote {
        /// The configured cross-chain controller.
        controller: String,
        /// The channel the proposal requested.
        channel_id: String,
        /// The proposal being executed remotely.
        proposal_id: u64,
        /// The proposal's actions, sorted by ascending order key.
        messages: Vec<ProposalMessage>,
    },
}

/// The stored action list of a proposal, empty when it has none.
pub open spec fn stored_messages(p: Proposal) -> Seq<ProposalMessage> {
    match p.messages {
        Some(v) => v@,
        None => Seq::empty(),
    }
}

/// Removing one stored proposal preserves the state's well-formedness.
proof fn lemma_wf_remove(s0: GovState, s1: GovState, ix: int)
    requires
        s0.wf(),
        0 <= ix < s0.proposals@.len(),
        s1.proposals@ == s0.proposals@.remove(ix),
        s1.config == s0.config,
        s1.proposal_count == s0.proposal_count,
    ensures
        s1.wf(),
{
    assert forall|i: int| 0 <= i < s1.proposals@.len() implies (#[trigger] s1.proposals@[i])
        == s0.proposals@[if i < ix {
        i
    } else {
        i + 1
    }] by {}
    assert forall|i: int, j: int| 0 <= i < j < s1.proposals@.len() implies (
    #[trigger] s1.proposals@[i]).proposal_id < (#[trigger] s1.proposals@[j]).proposal_id by {
        let i0 = if i < ix {
            i
        } else {
            i + 1
        };
        let j0 = if j < ix {
            j
        } else {
            j + 1
        };
        assert(s0.proposals@[i0].proposal_id < s0.proposals@[j0].proposal_id);
    }
    assert forall|i: int| 0 <= i < s1.proposals@.len() implies 1 <= (
    #[trigger] s1.proposals@[i]).proposal_id <= s1.proposal_count && proposal_wf(
        s1.proposals@[i],
    ) by {
        let i0 = if i < ix {
            i
        } else {
            i + 1
        };
        assert(1 <= s0.proposals@[i0].proposal_id <= s0.proposal_count);
        assert(proposal_wf(s0.proposals@[i0]));
    }
}

/// Appending a well-formed proposal whose identifier continues the counter
/// preserves the state's well-formedness.
proof fn lemma_wf_push(s0: GovState, s1: GovState, p: Proposal)
    requires
        s0.wf(),
        s1.proposals@ == s0.proposals@.push(p),
        s1.config == s0.config,
        s1.proposal_count == p.proposal_id,
        s0.proposal_count < p.proposal_id,
        proposal_wf(p),
    ensures
        s1.wf(),
{
    let n = s0.proposals@.len() as int;
    assert forall|i: int, j: int| 0 <= i < j < s1.proposals@.len() implies (
    #[trigger] s1.proposals@[i]).proposal_id < (#[trigger] s1.proposals@[j]).proposal_id by {
        if j < n {
            assert(s0.proposals@[i].proposal_id < s0.proposals@[j].proposal_id);
        } else {
            assert(s1.proposals@[j] == p);
            assert(s0.proposals@[i].proposal_id <= s0.proposal_count);
        }
    }
    assert forall|i: int| 0 <= i < s1.proposals@.len() implies 1 <= (
    #[trigger] s1.proposals@[i]).proposal_id <= s1.proposal_count && proposal_wf(
        s1.proposals@[i],
    ) by {
        if i < n {
            assert(1 <= s0.proposals@[i].proposal_id <= s0.proposal_count);
            assert(proposal_wf(s0.proposals@[i]));
        }
    }
}

/// The instruction to refund a proposal's deposit: a transfer of the
/// deposit amount to the submitter on the governance token ledger.
#[derive(Debug)]
pub struct DepositRefund {
    /// The governance token ledger that performs the transfer.
    pub token: String,
    /// The account refunded: the proposal's submitter.
    pub recipient: String,
    /// The amount refunded: exactly the proposal's deposit.
    pub amount: u128,
}

/// Whether `p2` is `p` with only the status changed to `status`.
pub open spec fn spec_status_set(p2: Proposal, p: Proposal, status: ProposalStatus) -> bool {
    &&& p2.status == status
    &&& p2.proposal_id == p.proposal_id
    &&& p2.submitter == p.submitter
    &&& p2.for_power == p.for_power
    &&& p2.against_power == p.against_power
    &&& p2.for_voters == p.for_voters
    &&& p2.against_voters == p.against_voters
    &&& p2.start_block == p.start_block
    &&& p2.start_time == p.start_time
    &&& p2.end_block == p.end_block
    &&& p2.title == p.title
    &&& p2.description == p.description
    &&& p2.link == p.link
    &&& p2.messages == p.messages
    &&& p2.deposit_amount == p.deposit_amount
    &&& p2.ibc_channel == p.ibc_channel
}

/// Whether a proposal passes when its voting ends against the given total
/// eligible power: the quorum (cast power over total power) reaches the
/// required quorum, and the threshold (for-power over cast power) strictly
/// exceeds the required threshold.  A zero denominator yields a zero ratio.
pub open spec fn spec_proposal_passes(
    p: Proposal,
    total_power: u128,
    required_quorum: Ratio,
    required_threshold: Ratio,
) -> bool {
    let cast = p.for_power + p.against_power;
    &&& spec_ratio_atomics(cast, total_power as int) >= required_quorum.atomics
    &&& spec_ratio_atomics(p.for_power as int, cast) > required_threshold.atomics
}

impl GovState {
    /// Ends an active proposal whose voting period has passed: computes the
    /// quorum and threshold against the total eligible power (computed by
    /// the aggregator at the proposal's snapshot and passed in by the
    /// caller), sets the status to `Passed` or `Rejected`, and always
    /// returns the instruction refunding exactly the deposit to the
    /// submitter, regardless of the outcome.
    pub fn end_proposal(&mut self, block_height: u64, proposal_id: u64, total_voting_power: u128) -> (r:
        Result<DepositRefund, ContractError>)
        requires
            old(self).wf(),
        ensures
            final(self).wf(),
            final(self).config == old(self).config,
            final(self).proposal_count == old(self).proposal_count,
            r is Err ==> final(self).proposals@ == old(self).proposals@,
            ({
                let s0 = *old(self);
                if !s0.spec_has_proposal(proposal_id) {
                    r == Err::<DepositRefund, ContractError>(ContractError::ProposalNotFound)
                } else {
                    let ix = s0.spec_proposal_index(proposal_id);
                    let p = s0.proposals@[ix];
                    if !(p.status is Active) {
                        r == Err::<DepositRefund, ContractError>(ContractError::ProposalNotActive)
                    } else if block_height <= p.end_block {
                        r == Err::<DepositRefund, ContractError>(
                            ContractError::VotingPeriodNotEnded,
                        )
                    } else if p.for_power + p.against_power > u128::MAX {
                        r == Err::<DepositRefund, ContractError>(ContractError::Overflow)
                    } else if total_voting_power != 0 && spec_ratio_atomics(
                        p.for_power + p.against_power,
                        total_voting_power as int,
                    ) > u128::MAX {
                        r == Err::<DepositRefund, ContractError>(ContractError::Overflow)
                    } else {
                        let passed = spec_proposal_passes(
                            p,
                            total_voting_power,
                            s0.config.proposal_required_quorum,
                            s0.config.proposal_required_threshold,
                        );
                        &&& r matches Ok(refund)
                        &&& (r matches Ok(refund) ==> {
                            &&& refund.token@ == s0.config.xastro_token_addr@
                            &&& refund.recipient@ == p.submitter@
                            &&& refund.amount == p.deposit_amount
                        })
                        &&& final(self).proposals@ == s0.proposals@.update(
                            ix,
                            final(self).proposals@[ix],
                        )
                        &&& spec_status_set(
                            final(self).proposals@[ix],
                            p,
                            if passed {
                                ProposalStatus::Passed
                            } else {
                                ProposalStatus::Rejected
                            },
                        )
                    }
                }
            }),
    {
        let ix = match self.find_proposal(proposal_id) {
            Some(ix) => ix,
            None => {
                return Err(ContractError::ProposalNotFound);
            },
        };
        let (for_power, against_power, refund) = {
            let p = &self.proposals[ix];
            if p.status != ProposalStatus::Active {
                return Err(ContractError::ProposalNotActive);
            }
            if block_height <= p.end_block {
                return Err(ContractError::VotingPeriodNotEnded);
            }
            (
                p.for_power,
                p.against_power,
                DepositRefund {
                    token: self.config.xastro_token_addr.clone(),
                    recipient: p.submitter.clone(),
                    amount: p.deposit_amount,
                },
            )
        };
        let total_votes = match for_power.checked_add(against_power) {
            Some(v) => v,
            None => {
                return Err(ContractError::Overflow);
            },
        };
        let quorum = if total_voting_power == 0 {
            Ratio::zero()
        } else {
            match Ratio::checked_from_ratio(total_votes, total_voting_power) {
                Some(q) => q,
                None => {
                    return Err(ContractError::Overflow);
                },
            }
        };
        let threshold = if total_votes == 0 {
            Ratio::zero()
        } else {
            match Ratio::checked_from_ratio(for_power, total_votes) {
                Some(t) => t,
                None => {
                    proof {
                        vstd::arithmetic::mul::lemma_mul_inequality(
                            for_power as int,
                            total_votes as int,
                            RATIO_DENOMINATOR as int,
                        );
                        vstd::arithmetic::div_mod::lemma_div_is_ordered(
                            for_power * RATIO_DENOMINATOR,
                            total_votes * RATIO_DENOMINATOR,
                            total_votes as int,
                        );
                        vstd::arithmetic::div_mod::lemma_div_multiples_vanish(
                            RATIO_DENOMINATOR as int,
                            total_votes as int,
                        );
                        assert(false);
                    }
                    Ratio::zero()
                },
            }
        };
        let passed = quorum.atomics >= self.config.proposal_required_quorum.atomics
            && threshold.atomics > self.config.proposal_required_threshold.atomics;
        let ghost s0 = *self;
        let p = proposal_mut(&mut self.proposals, ix);
        let ghost p_before = *p;
        p.status = if passed {
            ProposalStatus::Passed
        } else {
            ProposalStatus::Rejected
        };
        proof {
            let p2 = self.proposals@[ix as int];
            assert(proposal_wf(p2));
            lemma_wf_update(s0, *self, ix as int, p2);
        }
        Ok(refund)
    }

    /// Casts a vote on an active proposal.  The voter must not be the
    /// submitter, must not have voted before on this proposal, must vote
    /// within the voting period, and must have non-zero voting power
    /// (computed by the aggregator at the proposal's snapshot and passed in
    /// by the caller).  On success the chosen side's power grows by the
    /// voter's power and the voter joins that side's voter list.
    pub fn cast_vote(
        &mut self,
        block_height: u64,
        sender: &String,
        proposal_id: u64,
        vote_option: ProposalVoteOption,
        voting_power: u128,
    ) -> (r: Result<(), ContractError>)
        requires
            old(self).wf(),
        ensures
            final(self).wf(),
            final(self).config == old(self).config,
            final(self).proposal_count == old(self).proposal_count,
            r is Err ==> final(self).proposals@ == old(self).proposals@,
            ({
                let s0 = *old(self);
                if !s0.spec_has_proposal(proposal_id) {
                    r == Err::<(), ContractError>(ContractError::ProposalNotFound)
                } else {
                    let ix = s0.spec_proposal_index(proposal_id);
                    let p = s0.proposals@[ix];
                    if !(p.status is Active) {
                        r == Err::<(), ContractError>(ContractError::ProposalNotActive)
                    } else if p.submitter@ == sender@ {
                        r == Err::<(), ContractError>(ContractError::Unauthorized)
                    } else if block_height > p.end_block {
                        r == Err::<(), ContractError>(ContractError::VotingPeriodEnded)
                    } else if p.for_voters.deep_view().contains(sender@)
                        || p.against_voters.deep_view().contains(sender@) {
                        r == Err::<(), ContractError>(ContractError::UserAlreadyVoted)
                    } else if voting_power == 0 {
                        r == Err::<(), ContractError>(ContractError::NoVotingPower)
                    } else if tally_of(p, vote_option) + voting_power > u128::MAX {
                        r == Err::<(), ContractError>(ContractError::Overflow)
                    } else {
                        &&& r is Ok
                        &&& final(self).proposals@ == s0.proposals@.update(
                            ix,
                            final(self).proposals@[ix],
                        )
                        &&& spec_vote_applied(
                            final(self).proposals@[ix],
                            p,
                            sender@,
                            vote_option,
                            voting_power,
                        )
                    }
                }
            }),
    {
        let ix = match self.find_proposal(proposal_id) {
            Some(ix) => ix,
            None => {
                return Err(ContractError::ProposalNotFound);
            },
        };
        {
            let p = &self.proposals[ix];
            if p.status != ProposalStatus::Active {
                return Err(ContractError::ProposalNotActive);
            }
            if p.submitter == *sender {
                return Err(ContractError::Unauthorized);
            }
            if block_height > p.end_block {
                return Err(ContractError::VotingPeriodEnded);
            }
            if contains_string(&p.for_voters, sender) || contains_string(
                &p.against_voters,
                sender,
            ) {
                return Err(ContractError::UserAlreadyVoted);
            }
            if voting_power == 0 {
                return Err(ContractError::NoVotingPower);
            }
        }
        let current = match vote_option {
            ProposalVoteOption::For => self.proposals[ix].for_power,
            ProposalVoteOption::Against => self.proposals[ix].against_power,
        };
        let grown = match current.checked_add(voting_power) {
            Some(v) => v,
            None => {
                return Err(ContractError::Overflow);
            },
        };
        let ghost s0 = *self;
        let p = proposal_mut(&mut self.proposals, ix);
        let ghost p_before = *p;
        match vote_option {
            ProposalVoteOption::For => {
                p.for_power = grown;
                p.for_voters.push(sender.clone());
            },
            ProposalVoteOption::Against => {
                p.against_power = grown;
                p.against_voters.push(sender.clone());
            },
        }
        proof {
            let p2 = self.proposals@[ix as int];
            match vote_option {
                ProposalVoteOption::For => {
                    assert(p2.for_voters.deep_view() =~= p_before.for_voters.deep_view().push(
                        sender@,
                    ));
                },
                ProposalVoteOption::Against => {
                    assert(p2.against_voters.deep_view() =~= p_before.against_voters.deep_view()
                        .push(sender@));
                },
            }
            assert(spec_vote_applied(p2, p_before, sender@, vote_option, voting_power));
            lemma_vote_preserves_wf(p2, p_before, sender@, vote_option, voting_power);
            lemma_wf_update(s0, *self, ix as int, p2);
        }
        Ok(())
    }

    /// Submits a new proposal.  The trigger is an incoming token transfer:
    /// `info_sender` must be the governance token ledger, the attached
    /// deposit must reach the configured minimum, a requested cross-chain
    /// channel must be supported by the configured controller (whose
    /// channel list the caller queried and passes in), and a link must
    /// start with a whitelisted prefix.  On success the next identifier is
    /// allocated and the proposal is stored as `Active` with its voting
    /// window computed from the configuration at submission time.
    pub fn submit_proposal(
        &mut self,
        block_height: u64,
        block_time: u64,
        info_sender: &String,
        sender: String,
        deposit_amount: u128,
        title: String,
        description: String,
        link: Option<String>,
        messages: Option<Vec<ProposalMessage>>,
        ibc_channel: Option<String>,
        controller_channels: Option<Vec<String>>,
    ) -> (r: Result<u64, ContractError>)
        requires
            old(self).wf(),
            block_height + old(self).config.proposal_voting_period <= u64::MAX,
            (ibc_channel is Some && old(self).config.ibc_controller is Some)
                <==> controller_channels is Some,
        ensures
            final(self).wf(),
            final(self).config == old(self).config,
            r is Err ==> final(self).proposals@ == old(self).proposals@ && final(self).proposal_count
                == old(self).proposal_count,
            ({
                let s0 = *old(self);
                let cfg = s0.config;
                if info_sender@ != cfg.xastro_token_addr@ {
                    r == Err::<u64, ContractError>(ContractError::Unauthorized)
                } else if deposit_amount < cfg.proposal_required_deposit {
                    r == Err::<u64, ContractError>(ContractError::InsufficientDeposit)
                } else if s0.proposal_count + 1 > u64::MAX {
                    r == Err::<u64, ContractError>(ContractError::Overflow)
                } else if ibc_channel is Some && cfg.ibc_controller is None {
                    r == Err::<u64, ContractError>(ContractError::MissingIBCController)
                } else if ibc_channel matches Some(ch)
                    && !controller_channels->0.deep_view().contains(ch@) {
                    r == Err::<u64, ContractError>(
                        ContractError::InvalidChannel(ibc_channel->0),
                    )
                } else if link matches Some(l) && !link_whitelisted(
                    l@,
                    cfg.whitelisted_links.deep_view(),
                ) {
                    r == Err::<u64, ContractError>(ContractError::LinkNotWhitelisted)
                } else {
                    let id = (s0.proposal_count + 1) as u64;
                    let p = final(self).proposals@.last();
                    &&& r == Ok::<u64, ContractError>(id)
                    &&& final(self).proposal_count == id
                    &&& final(self).proposals@ == s0.proposals@.push(p)
                    &&& p.proposal_id == id
                    &&& p.submitter == sender
                    &&& p.status is Active
                    &&& p.for_power == 0
                    &&& p.against_power == 0
                    &&& p.for_voters@.len() == 0
                    &&& p.against_voters@.len() == 0
                    &&& p.start_block == block_height
                    &&& p.start_time == block_time
                    &&& p.end_block == block_height + cfg.proposal_voting_period
                    &&& p.title == title
                    &&& p.description == description
                    &&& p.link == link
                    &&& p.messages == messages
                    &&& p.deposit_amount == deposit_amount
                    &&& p.ibc_channel == ibc_channel
                }
            }),
    {
        if !(*info_sender == self.config.xastro_token_addr) {
            return Err(ContractError::Unauthorized);
        }
        if deposit_amount < self.config.proposal_required_deposit {
            return Err(ContractError::InsufficientDeposit);
        }
        let count = match self.proposal_count.checked_add(1) {
            Some(c) => c,
            None => {
                return Err(ContractError::Overflow);
            },
        };
        if let Some(ch) = &ibc_channel {
            match (&self.config.ibc_controller, &controller_channels) {
                (Some(_), Some(channels)) => {
                    match check_controller_supports_channel(channels, ch) {
                        Ok(_) => {},
                        Err(e) => {
                            return Err(e);
                        },
                    }
                },
                _ => {
                    return Err(ContractError::MissingIBCController);
                },
            }
        }
        if let Some(l) = &link {
            if !link_allowed(l, &self.config.whitelisted_links) {
                return Err(ContractError::LinkNotWhitelisted);
            }
        }
        let proposal = Proposal {
            proposal_id: count,
            submitter: sender,
            status: ProposalStatus::Active,
            for_power: 0,
            against_power: 0,
            for_voters: Vec::new(),
            against_voters: Vec::new(),
            start_block: block_height,
            start_time: block_time,
            end_block: block_height + self.config.proposal_voting_period,
            title,
            description,
            link,
            messages,
            deposit_amount,
            ibc_channel,
        };
        let ghost s0 = *self;
        self.proposal_count = count;
        self.proposals.push(proposal);
        proof {
            assert(proposal.for_voters.deep_view() =~= Seq::<Seq<char>>::empty());
            assert(proposal.against_voters.deep_view() =~= Seq::<Seq<char>>::empty());
            assert(proposal_wf(proposal));
            lemma_wf_push(s0, *self, proposal);
        }
        Ok(count)
    }

    /// Executes a passed proposal inside its execution window: at or after
    /// `end_block + effective_delay`, and no later than `end_block +
    /// effective_delay + expiration_period`.  Without a cross-chain channel
    /// the proposal becomes `Executed` and its actions are returned sorted
    /// for local execution; with a channel and actions, the proposal
    /// becomes `InProgress` and the sorted actions are addressed to the
    /// configured controller; with a channel but no actions there is
    /// nothing to forward and the proposal becomes `Executed`.
    pub fn execute_proposal(&mut self, block_height: u64, proposal_id: u64) -> (r: Result<
        ExecuteOutcome,
        ContractError,
    >)
        requires
            old(self).wf(),
            old(self).spec_has_proposal(proposal_id) ==> old(self).spec_proposal(
                proposal_id,
            ).end_block + old(self).config.proposal_effective_delay
                + old(self).config.proposal_expiration_period <= u64::MAX,
        ensures
            final(self).wf(),
            final(self).config == old(self).config,
            final(self).proposal_count == old(self).proposal_count,
            r is Err ==> final(self).proposals@ == old(self).proposals@,
            ({
                let s0 = *old(self);
                if !s0.spec_has_proposal(proposal_id) {
                    r == Err::<ExecuteOutcome, ContractError>(ContractError::ProposalNotFound)
                } else {
                    let ix = s0.spec_proposal_index(proposal_id);
                    let p = s0.proposals@[ix];
                    let cfg = s0.config;
                    if !(p.status is Passed) {
                        r == Err::<ExecuteOutcome, ContractError>(ContractError::ProposalNotPassed)
                    } else if block_height < p.end_block + cfg.proposal_effective_delay {
                        r == Err::<ExecuteOutcome, ContractError>(
                            ContractError::ProposalDelayNotEnded,
                        )
                    } else if block_height > p.end_block + cfg.proposal_effective_delay
                        + cfg.proposal_expiration_period {
                        r == Err::<ExecuteOutcome, ContractError>(
                            ContractError::ExecuteProposalExpired,
                        )
                    } else if p.ibc_channel is Some && p.messages is Some
                        && cfg.ibc_controller is None {
                        r == Err::<ExecuteOutcome, ContractError>(
                            ContractError::MissingIBCController,
                        )
                    } else {
                        let delegated = p.ibc_channel is Some && p.messages is Some;
                        &&& r is Ok
                        &&& final(self).proposals@ == s0.proposals@.update(
                            ix,
                            final(self).proposals@[ix],
                        )
                        &&& spec_status_set(
                            final(self).proposals@[ix],
                            p,
                            if delegated {
                                ProposalStatus::InProgress
                            } else {
                                ProposalStatus::Executed
                            },
                        )
                        &&& (r matches Ok(out) ==> if delegated {
                            &&& out matches ExecuteOutcome::Remote {
                                controller,
                                channel_id,
                                proposal_id: pid,
                                messages,
                            }
                            &&& (out matches ExecuteOutcome::Remote {
                                controller,
                                channel_id,
                                proposal_id: pid,
                                messages,
                            } ==> controller == cfg.ibc_controller->0 && channel_id
                                == p.ibc_channel->0 && pid == proposal_id
                                && crate::messages::stable_sorted_of(messages@, p.messages->0@))
                        } else {
                            &&& out matches ExecuteOutcome::Local { messages }
                            &&& (out matches ExecuteOutcome::Local { messages }
                                ==> crate::messages::stable_sorted_of(
                                messages@,
                                stored_messages(p),
                            ))
                        })
                    }
                }
            }),
    {
        let ix = match self.find_proposal(proposal_id) {
            Some(ix) => ix,
            None => {
                return Err(ContractError::ProposalNotFound);
            },
        };
        let (channel, msgs) = {
            let p = &self.proposals[ix];
            if p.status != ProposalStatus::Passed {
                return Err(ContractError::ProposalNotPassed);
            }
            if block_height < p.end_block + self.config.proposal_effective_delay {
                return Err(ContractError::ProposalDelayNotEnded);
            }
            if block_height > p.end_block + self.config.proposal_effective_delay
                + self.config.proposal_expiration_period {
                return Err(ContractError::ExecuteProposalExpired);
            }
            (
                clone_opt_string(&p.ibc_channel),
                match &p.messages {
                    Some(m) => Some(clone_messages(m)),
                    None => None,
                },
            )
        };
        let delegated = channel.is_some() && msgs.is_some();
        let outcome = match channel {
            Some(ch) => {
                match msgs {
                    Some(m) => {
                        let controller = match &self.config.ibc_controller {
                            Some(c) => c.clone(),
                            None => {
                                return Err(ContractError::MissingIBCController);
                            },
                        };
                        let mut m = m;
                        crate::messages::sort_proposal_messages(&mut m);
                        ExecuteOutcome::Remote {
                            controller,
                            channel_id: ch,
                            proposal_id,
                            messages: m,
                        }
                    },
                    None => ExecuteOutcome::Local { messages: Vec::new() },
                }
            },
            None => {
                let mut m = match msgs {
                    Some(m) => m,
                    None => Vec::new(),
                };
                crate::messages::sort_proposal_messages(&mut m);
                ExecuteOutcome::Local { messages: m }
            },
        };
        let ghost s0 = *self;
        let p = proposal_mut(&mut self.proposals, ix);
        p.status = if delegated {
            ProposalStatus::InProgress
        } else {
            ProposalStatus::Executed
        };
        proof {
            let p2 = self.proposals@[ix as int];
            assert(proposal_wf(p2));
            lemma_wf_update(s0, *self, ix as int, p2);
        }
        Ok(outcome)
    }

    /// Removes a completed proposal from storage.  A proposal that is still
    /// `Active` once the execution window has lapsed counts as `Expired`;
    /// only an `Expired` or `Rejected` proposal can be removed.
    pub fn remove_completed_proposal(&mut self, block_height: u64, proposal_id: u64) -> (r: Result<
        (),
        ContractError,
    >)
        requires
            old(self).wf(),
            old(self).spec_has_proposal(proposal_id) ==> old(self).spec_proposal(
                proposal_id,
            ).end_block + old(self).config.proposal_effective_delay
                + old(self).config.proposal_expiration_period <= u64::MAX,
        ensures
            final(self).wf(),
            final(self).config == old(self).config,
            final(self).proposal_count == old(self).proposal_count,
            r is Err ==> final(self).proposals@ == old(self).proposals@,
            ({
                let s0 = *old(self);
                if !s0.spec_has_proposal(proposal_id) {
                    r == Err::<(), ContractError>(ContractError::ProposalNotFound)
                } else {
                    let ix = s0.spec_proposal_index(proposal_id);
                    let p = s0.proposals@[ix];
                    let cfg = s0.config;
                    let lapsed = block_height > p.end_block + cfg.proposal_effective_delay
                        + cfg.proposal_expiration_period;
                    let effective = if lapsed && p.status is Active {
                        ProposalStatus::Expired
                    } else {
                        p.status
                    };
                    if !(effective is Expired || effective is Rejected) {
                        r == Err::<(), ContractError>(ContractError::ProposalNotCompleted)
                    } else {
                        r is Ok && final(self).proposals@ == s0.proposals@.remove(ix)
                    }
                }
            }),
    {
        let ix = match self.find_proposal(proposal_id) {
            Some(ix) => ix,
            None => {
                return Err(ContractError::ProposalNotFound);
            },
        };
        {
            let p = &self.proposals[ix];
            let lapsed = block_height > p.end_block + self.config.proposal_effective_delay
                + self.config.proposal_expiration_period;
            let effective = if lapsed && p.status == ProposalStatus::Active {
                ProposalStatus::Expired
            } else {
                p.status
            };
            if !(effective == ProposalStatus::Expired || effective == ProposalStatus::Rejected) {
                return Err(ContractError::ProposalNotCompleted);
            }
        }
        let ghost s0 = *self;
        self.proposals.remove(ix);
        proof {
            lemma_wf_remove(s0, *self, ix as int);
        }
        Ok(())
    }

    /// Applies a remote-completion callback from the configured cross-chain
    /// controller: only the controller may report, only an `InProgress`
    /// proposal can be completed, and the reported status must be
    /// `Executed` or `Failed`.
    pub fn update_ibc_proposal_status(
        &mut self,
        info_sender: &String,
        proposal_id: u64,
        new_status: ProposalStatus,
    ) -> (r: Result<(), ContractError>)
        requires
            old(self).wf(),
        ensures
            final(self).wf(),
            final(self).config == old(self).config,
            final(self).proposal_count == old(self).proposal_count,
            r is Err ==> final(self).proposals@ == old(self).proposals@,
            ({
                let s0 = *old(self);
                let authorized = s0.config.ibc_controller matches Some(c) && c@ == info_sender@;
                if !authorized {
                    r == Err::<(), ContractError>(ContractError::InvalidIBCController)
                } else if !s0.spec_has_proposal(proposal_id) {
                    r == Err::<(), ContractError>(ContractError::ProposalNotFound)
                } else {
                    let ix = s0.spec_proposal_index(proposal_id);
                    let p = s0.proposals@[ix];
                    if !(p.status is InProgress) {
                        r == Err::<(), ContractError>(ContractError::NotUpdatedProposalStatus)
                    } else if !(new_status is Executed || new_status is Failed) {
                        r == Err::<(), ContractError>(
                            ContractError::InvalidIBCProposalStatus(new_status),
                        )
                    } else {
                        &&& r is Ok
                        &&& final(self).proposals@ == s0.proposals@.update(
                            ix,
                            final(self).proposals@[ix],
                        )
                        &&& spec_status_set(final(self).proposals@[ix], p, new_status)
                    }
                }
            }),
    {
        let authorized = match &self.config.ibc_controller {
            Some(c) => *c == *info_sender,
            None => false,
        };
        if !authorized {
            return Err(ContractError::InvalidIBCController);
        }
        let ix = match self.find_proposal(proposal_id) {
            Some(ix) => ix,
            None => {
                return Err(ContractError::ProposalNotFound);
            },
        };
        if self.proposals[ix].status != ProposalStatus::InProgress {
            return Err(ContractError::NotUpdatedProposalStatus);
        }
        if !(new_status == ProposalStatus::Executed || new_status == ProposalStatus::Failed) {
            return Err(ContractError::InvalidIBCProposalStatus(new_status));
        }
        let ghost s0 = *self;
        let p = proposal_mut(&mut self.proposals, ix);
        p.status = new_status;
        proof {
            let p2 = self.proposals@[ix as int];
            assert(proposal_wf(p2));
            lemma_wf_update(s0, *self, ix as int, p2);
        }
        Ok(())
    }

    /// One page of the stored proposals: those with identifier at least
    /// `start` (inclusive; zero when absent), in ascending identifier
    /// order, at most `limit` of them (the default page size when absent,
    /// capped by the hard maximum).
    pub fn query_proposals(&self, start: Option<u64>, limit: Option<u32>) -> (r:
        ProposalListResponse)
        ensures
            r.proposal_count == self.proposal_count,
            ({
                let from = match start {
                    Some(s) => s,
                    None => 0u64,
                };
                let eligible = self.proposals@.filter(id_at_least(from));
                let lim = spec_page_limit(limit);
                let n = if lim <= eligible.len() {
                    lim
                } else {
                    eligible.len() as int
                };
                proposals_match_seq(r.proposal_list@, eligible.take(n))
            }),
    {
        let from = match start {
            Some(s) => s,
            None => 0u64,
        };
        let lim_u32 = match limit {
            Some(l) => l,
            None => DEFAULT_LIMIT,
        };
        let lim: usize = if lim_u32 <= MAX_LIMIT {
            lim_u32 as usize
        } else {
            MAX_LIMIT as usize
        };
        let mut out: Vec<Proposal> = Vec::new();
        let mut i: usize = 0;
        while i < self.proposals.len() && out.len() < lim
            invariant
                i <= self.proposals@.len(),
                lim as int == spec_page_limit(limit),
                ({
                    let filtered = self.proposals@.take(i as int).filter(id_at_least(from));
                    &&& out@.len() == (if lim as int <= filtered.len() {
                        lim as int
                    } else {
                        filtered.len() as int
                    })
                    &&& proposals_match_seq(out@, filtered.take(out@.len() as int))
                }),
            decreases self.proposals@.len() - i,
        {
            let ghost filtered = self.proposals@.take(i as int).filter(id_at_least(from));
            let p = &self.proposals[i];
            if p.proposal_id >= from {
                out.push(p.clone());
            }
            proof {
                lemma_take_push(self.proposals@, i as int);
                lemma_filter_push(
                    self.proposals@.take(i as int),
                    self.proposals@[i as int],
                    id_at_least(from),
                );
                let filtered2 = self.proposals@.take(i + 1).filter(id_at_least(from));
                if self.proposals@[i as int].proposal_id >= from {
                    assert(filtered2 =~= filtered.push(self.proposals@[i as int]));
                    assert(filtered.take(filtered.len() as int) =~= filtered);
                    assert(filtered2.take(out@.len() as int) =~= filtered.push(
                        self.proposals@[i as int],
                    ));
                } else {
                    assert(filtered2 =~= filtered);
                }
            }
            i = i + 1;
        }
        proof {
            let eligible = self.proposals@.filter(id_at_least(from));
            let filtered = self.proposals@.take(i as int).filter(id_at_least(from));
            if i == self.proposals@.len() {
                assert(self.proposals@.take(i as int) =~= self.proposals@);
            } else {
                assert(out@.len() == lim);
                assert(self.proposals@ =~= self.proposals@.take(i as int) + self.proposals@.skip(
                    i as int,
                ));
                Seq::filter_distributes_over_add(
                    self.proposals@.take(i as int),
                    self.proposals@.skip(i as int),
                    id_at_least(from),
                );
                assert(eligible.take(lim as int) =~= filtered.take(lim as int));
            }
        }
        ProposalListResponse { proposal_count: self.proposal_count, proposal_list: out }
    }

    /// Updates the governance parameters.  Only the contract's own address
    /// may do this, so the operation is reachable only through a passed
    /// proposal's own execution.  Provided fields overwrite stored ones;
    /// whitelist additions are deduplicated, removals are applied after
    /// additions, and the new configuration is re-validated.
    pub fn update_config(
        &mut self,
        sender: &String,
        contract_address: &String,
        update: UpdateConfig,
    ) -> (r: Result<(), ContractError>)
        requires
            old(self).wf(),
        ensures
            final(self).wf(),
            final(self).proposal_count == old(self).proposal_count,
            final(self).proposals@ == old(self).proposals@,
            r is Err ==> final(self).config == old(self).config,
            ({
                let s0 = *old(self);
                if sender@ != contract_address@ {
                    r == Err::<(), ContractError>(ContractError::Unauthorized)
                } else {
                    let expect = spec_updated_config(s0.config, update);
                    let new_links = spec_apply_whitelist(
                        s0.config.whitelisted_links.deep_view(),
                        update.whitelist_add.deep_view(),
                        update.whitelist_remove.deep_view(),
                    );
                    match r {
                        Ok(_) => {
                            &&& config_matches_except_links(final(self).config, expect)
                            &&& final(self).config.whitelisted_links.deep_view() == new_links
                            &&& config_wf(final(self).config)
                        },
                        Err(e) => {
                            &&& (e == ContractError::WhitelistEmpty || e
                                == ContractError::InvalidProposalRequiredQuorum || e
                                == ContractError::InvalidProposalRequiredThreshold)
                            &&& (e == ContractError::WhitelistEmpty <==> new_links.len() == 0)
                            &&& (e == ContractError::InvalidProposalRequiredQuorum <==> new_links.len()
                                > 0 && !expect.proposal_required_quorum.spec_at_most_one())
                            &&& (e == ContractError::InvalidProposalRequiredThreshold
                                <==> new_links.len() > 0
                                && expect.proposal_required_quorum.spec_at_most_one()
                                && !expect.proposal_required_threshold.spec_at_most_one())
                        },
                    }
                }
            }),
    {
        if !(*sender == *contract_address) {
            return Err(ContractError::Unauthorized);
        }
        match updated_config(&self.config, update) {
            Ok(c) => {
                self.config = c;
                Ok(())
            },
            Err(e) => Err(e),
        }
    }
}

} // verus!
