//! The governance configuration and its self-governed update surface.
//!
//! The configuration holds the references to the voting-power sources, the
//! proposal timing parameters, the deposit, the quorum and threshold bounds,
//! and a non-empty whitelist of allowed link prefixes.  Updates are sparse:
//! every provided field overwrites the stored one, whitelist additions are
//! deduplicated against the stored entries, removals are applied after
//! additions, and the result is re-validated.

use vstd::prelude::*;
use vstd::seq_lib::*;

use crate::error::ContractError;
use crate::proposal::{clone_opt_string, clone_string_vec};
use crate::ratio::Ratio;
use crate::seq_util::{contains_string, lemma_filter_push, lemma_take_push};

verus! {

/// The governance parameters, created at initialization and mutated only
/// through a passed proposal's own execution.
#[derive(Debug)]
pub struct Config {
    /// Address of the governance (xASTRO) token ledger.
    pub xastro_token_addr: String,
    /// Address of the escrow (vxASTRO) voting-power ledger, if configured.
    pub vxastro_token_addr: Option<String>,
    /// Address of the cross-chain controller, if configured.
    pub ibc_controller: Option<String>,
    /// Address of the vesting (builder unlock) ledger.
    pub builder_unlock_addr: String,
    /// Proposal voting period, in blocks.
    pub proposal_voting_period: u64,
    /// Mandatory delay between a proposal passing and becoming executable,
    /// in blocks.
    pub proposal_effective_delay: u64,
    /// Window after the delay during which execution stays possible, in
    /// blocks.
    pub proposal_expiration_period: u64,
    /// Deposit required to submit a proposal.
    pub proposal_required_deposit: u128,
    /// Required quorum: cast power over total power, in `[0, 1]`.
    pub proposal_required_quorum: Ratio,
    /// Required threshold: for-power over cast power, in `[0, 1]`.
    pub proposal_required_threshold: Ratio,
    /// Whitelist of allowed link prefixes; never empty.
    pub whitelisted_links: Vec<String>,
}

/// Well-formedness of the configuration: the whitelist is non-empty and the
/// quorum and threshold bounds are ratios in `[0, 1]`.
pub open spec fn config_wf(c: Config) -> bool {
    &&& c.whitelisted_links.deep_view().len() > 0
    &&& c.proposal_required_quorum.spec_at_most_one()
    &&& c.proposal_required_threshold.spec_at_most_one()
}

/// A sparse configuration update: every provided field overwrites the
/// stored one.
pub struct UpdateConfig {
    /// New cross-chain controller address.
    pub ibc_controller: Option<String>,
    /// New vesting-ledger address.
    pub builder_unlock_addr: Option<String>,
    /// New proposal voting period, in blocks.
    pub proposal_voting_period: Option<u64>,
    /// New proposal effective delay, in blocks.
    pub proposal_effective_delay: Option<u64>,
    /// New proposal expiration period, in blocks.
    pub proposal_expiration_period: Option<u64>,
    /// New required deposit.
    pub proposal_required_deposit: Option<u128>,
    /// New required quorum.
    pub proposal_required_quorum: Option<Ratio>,
    /// New required threshold.
    pub proposal_required_threshold: Option<Ratio>,
    /// Link prefixes to add, deduplicated against the stored entries.
    pub whitelist_add: Option<Vec<String>>,
    /// Link prefixes to remove, applied after the additions.
    pub whitelist_remove: Option<Vec<String>>,
}

/// The predicate holding of the links that are not in `set`.
pub open spec fn not_in(set: Seq<Seq<char>>) -> spec_fn(Seq<char>) -> bool {
    |l: Seq<char>| !set.contains(l)
}

/// The whitelist after applying the optional additions (deduplicated
/// against the stored entries) and then the optional removals.
pub open spec fn spec_apply_whitelist(
    cur: Seq<Seq<char>>,
    add: Option<Seq<Seq<char>>>,
    remove: Option<Seq<Seq<char>>>,
) -> Seq<Seq<char>> {
    let grown = match add {
        Some(a) => cur + a.filter(not_in(cur)),
        None => cur,
    };
    match remove {
        Some(r) => grown.filter(not_in(r)),
        None => grown,
    }
}

/// Whether a link starts with one of the whitelisted prefixes.
pub open spec fn link_whitelisted(link: Seq<char>, whitelist: Seq<Seq<char>>) -> bool {
    exists|i: int| 0 <= i < whitelist.len() && (#[trigger] whitelist[i]).is_prefix_of(link)
}

/// Whether `s` starts with `prefix`, by characters.
pub fn str_starts_with(s: &String, prefix: &String) -> (r: bool)
    ensures
        r == prefix@.is_prefix_of(s@),
{
    let n = prefix.as_str().unicode_len();
    let m = s.as_str().unicode_len();
    if n > m {
        return false;
    }
    let mut i: usize = 0;
    while i < n
        invariant
            i <= n,
            n == prefix@.len(),
            n <= m,
            m == s@.len(),
            forall|k: int| 0 <= k < i ==> s@[k] == prefix@[k],
        decreases n - i,
    {
        if s.as_str().get_char(i) != prefix.as_str().get_char(i) {
            proof {
                assert(s@.subrange(0, n as int)[i as int] != prefix@[i as int]);
            }
            return false;
        }
        i = i + 1;
    }
    proof {
        assert(prefix@ =~= s@.subrange(0, n as int));
    }
    true
}

/// Whether the link starts with one of the whitelisted prefixes.
pub fn link_allowed(link: &String, whitelist: &Vec<String>) -> (r: bool)
    ensures
        r == link_whitelisted(link@, whitelist.deep_view()),
{
    let mut i: usize = 0;
    while i < whitelist.len()
        invariant
            i <= whitelist@.len(),
            forall|k: int| 0 <= k < i ==> !(#[trigger] whitelist.deep_view()[k]).is_prefix_of(
                link@,
            ),
        decreases whitelist@.len() - i,
    {
        if str_starts_with(link, &whitelist[i]) {
            proof {
                assert(whitelist.deep_view()[i as int].is_prefix_of(link@));
            }
            return true;
        }
        i = i + 1;
    }
    false
}

impl Config {
    /// Validates the configuration: the whitelist must be non-empty and the
    /// quorum and threshold bounds must be at most one.
    pub fn validate(&self) -> (r: Result<(), ContractError>)
        ensures
            match r {
                Ok(_) => config_wf(*self),
                Err(e) => !config_wf(*self) && (e == ContractError::WhitelistEmpty || e
                    == ContractError::InvalidProposalRequiredQuorum || e
                    == ContractError::InvalidProposalRequiredThreshold) && (e
                    == ContractError::WhitelistEmpty <==> self
                    .whitelisted_links@.len() == 0) && (e
                    == ContractError::InvalidProposalRequiredQuorum <==> self.whitelisted_links@.len()
                    > 0 && !self.proposal_required_quorum.spec_at_most_one()) && (e
                    == ContractError::InvalidProposalRequiredThreshold <==> self
                    .whitelisted_links@.len() > 0 && self.proposal_required_quorum.spec_at_most_one()
                    && !self.proposal_required_threshold.spec_at_most_one()),
            },
    {
        if self.whitelisted_links.is_empty() {
            return Err(ContractError::WhitelistEmpty);
        }
        if !self.proposal_required_quorum.at_most_one() {
            return Err(ContractError::InvalidProposalRequiredQuorum);
        }
        if !self.proposal_required_threshold.at_most_one() {
            return Err(ContractError::InvalidProposalRequiredThreshold);
        }
        Ok(())
    }
}

/// Builds the whitelist after the optional additions and removals.
fn apply_whitelist(cur: &Vec<String>, add: &Option<Vec<String>>, remove: &Option<Vec<String>>) -> (r:
    Vec<String>)
    ensures
        r.deep_view() == spec_apply_whitelist(cur.deep_view(), add.deep_view(), remove.deep_view()),
{
    let mut grown = clone_string_vec(cur);
    proof {
        assert(grown.deep_view() =~= cur.deep_view());
    }
    if let Some(a) = add {
        let mut fresh: Vec<String> = Vec::new();
        let mut i: usize = 0;
        while i < a.len()
            invariant
                i <= a@.len(),
                fresh.deep_view() == a.deep_view().take(i as int).filter(not_in(cur.deep_view())),
            decreases a@.len() - i,
        {
            let ghost pre = fresh.deep_view();
            let keep = !contains_string(cur, &a[i]);
            if keep {
                fresh.push(a[i].clone());
            }
            proof {
                lemma_take_push(a.deep_view(), i as int);
                lemma_filter_push(
                    a.deep_view().take(i as int),
                    a.deep_view()[i as int],
                    not_in(cur.deep_view()),
                );
                if keep {
                    assert(fresh.deep_view() =~= pre + seq![a.deep_view()[i as int]]);
                } else {
                    assert(fresh.deep_view() =~= pre + Seq::<Seq<char>>::empty());
                }
            }
            i = i + 1;
        }
        proof {
            assert(a.deep_view().take(a@.len() as int) =~= a.deep_view());
        }
        let ghost before = grown.deep_view();
        let ghost added = fresh.deep_view();
        grown.append(&mut fresh);
        proof {
            assert(grown.deep_view() =~= before + added);
        }
    }
    if let Some(rm) = remove {
        let mut kept: Vec<String> = Vec::new();
        let mut i: usize = 0;
        while i < grown.len()
            invariant
                i <= grown@.len(),
                kept.deep_view() == grown.deep_view().take(i as int).filter(
                    not_in(rm.deep_view()),
                ),
            decreases grown@.len() - i,
        {
            let ghost pre = kept.deep_view();
            let keep = !contains_string(rm, &grown[i]);
            if keep {
                kept.push(grown[i].clone());
            }
            proof {
                lemma_take_push(grown.deep_view(), i as int);
                lemma_filter_push(
                    grown.deep_view().take(i as int),
                    grown.deep_view()[i as int],
                    not_in(rm.deep_view()),
                );
                if keep {
                    assert(kept.deep_view() =~= pre + seq![grown.deep_view()[i as int]]);
                } else {
                    assert(kept.deep_view() =~= pre + Seq::<Seq<char>>::empty());
                }
            }
            i = i + 1;
        }
        proof {
            assert(grown.deep_view().take(grown@.len() as int) =~= grown.deep_view());
        }
        kept
    } else {
        grown
    }
}

/// The configuration that an update would produce, before validation.
pub open spec fn spec_updated_config(base: Config, update: UpdateConfig) -> Config {
    Config {
        xastro_token_addr: base.xastro_token_addr,
        vxastro_token_addr: base.vxastro_token_addr,
        ibc_controller: match update.ibc_controller {
            Some(a) => Some(a),
            None => base.ibc_controller,
        },
        builder_unlock_addr: match update.builder_unlock_addr {
            Some(a) => a,
            None => base.builder_unlock_addr,
        },
        proposal_voting_period: match update.proposal_voting_period {
            Some(v) => v,
            None => base.proposal_voting_period,
        },
        proposal_effective_delay: match update.proposal_effective_delay {
            Some(v) => v,
            None => base.proposal_effective_delay,
        },
        proposal_expiration_period: match update.proposal_expiration_period {
            Some(v) => v,
            None => base.proposal_expiration_period,
        },
        proposal_required_deposit: match update.proposal_required_deposit {
            Some(v) => v,
            None => base.proposal_required_deposit,
        },
        proposal_required_quorum: match update.proposal_required_quorum {
            Some(v) => v,
            None => base.proposal_required_quorum,
        },
        proposal_required_threshold: match update.proposal_required_threshold {
            Some(v) => v,
            None => base.proposal_required_threshold,
        },
        whitelisted_links: base.whitelisted_links,
    }
}

/// Whether two configurations hold identical field values apart from the
/// whitelist.
pub open spec fn config_matches_except_links(a: Config, b: Config) -> bool {
    &&& a.xastro_token_addr == b.xastro_token_addr
    &&& a.vxastro_token_addr == b.vxastro_token_addr
    &&& a.ibc_controller == b.ibc_controller
    &&& a.builder_unlock_addr == b.builder_unlock_addr
    &&& a.proposal_voting_period == b.proposal_voting_period
    &&& a.proposal_effective_delay == b.proposal_effective_delay
    &&& a.proposal_expiration_period == b.proposal_expiration_period
    &&& a.proposal_required_deposit == b.proposal_required_deposit
    &&& a.proposal_required_quorum == b.proposal_required_quorum
    &&& a.proposal_required_threshold == b.proposal_required_threshold
}

/// Whether two configurations hold identical field values, comparing the
/// whitelist by its entries.
pub open spec fn config_matches(a: Config, b: Config) -> bool {
    &&& config_matches_except_links(a, b)
    &&& a.whitelisted_links.deep_view() == b.whitelisted_links.deep_view()
}

/// Applies a sparse update to the configuration and validates the result:
/// provided fields overwrite stored ones, whitelist additions are
/// deduplicated, removals are applied after additions, and the new
/// configuration must still be well-formed.
pub fn updated_config(base: &Config, update: UpdateConfig) -> (r: Result<Config, ContractError>)
    ensures
        ({
            let expect = spec_updated_config(*base, update);
            let new_links = spec_apply_whitelist(
                base.whitelisted_links.deep_view(),
                update.whitelist_add.deep_view(),
                update.whitelist_remove.deep_view(),
            );
            match r {
                Ok(c) => {
                    &&& config_matches_except_links(c, expect)
                    &&& c.whitelisted_links.deep_view() == new_links
                    &&& config_wf(c)
                },
                Err(e) => {
                    &&& (e == ContractError::WhitelistEmpty || e
                        == ContractError::InvalidProposalRequiredQuorum || e
                        == ContractError::InvalidProposalRequiredThreshold)
                    &&& (e == ContractError::WhitelistEmpty <==> new_links.len() == 0)
                    &&& (e == ContractError::InvalidProposalRequiredQuorum <==> new_links.len() > 0
                        && !expect.proposal_required_quorum.spec_at_most_one())
                    &&& (e == ContractError::InvalidProposalRequiredThreshold <==> new_links.len()
                        > 0 && expect.proposal_required_quorum.spec_at_most_one()
                        && !expect.proposal_required_threshold.spec_at_most_one())
                },
            }
        }),
{
    let whitelisted_links = apply_whitelist(
        &base.whitelisted_links,
        &update.whitelist_add,
        &update.whitelist_remove,
    );
    let config = Config {
        xastro_token_addr: base.xastro_token_addr.clone(),
        vxastro_token_addr: clone_opt_string(&base.vxastro_token_addr),
        ibc_controller: match update.ibc_controller {
            Some(a) => Some(a),
            None => clone_opt_string(&base.ibc_controller),
        },
        builder_unlock_addr: match update.builder_unlock_addr {
            Some(a) => a,
            None => base.builder_unlock_addr.clone(),
        },
        proposal_voting_period: match update.proposal_voting_period {
            Some(v) => v,
            None => base.proposal_voting_period,
        },
        proposal_effective_delay: match update.proposal_effective_delay {
            Some(v) => v,
            None => base.proposal_effective_delay,
        },
        proposal_expiration_period: match update.proposal_expiration_period {
            Some(v) => v,
            None => base.proposal_expiration_period,
        },
        proposal_required_deposit: match update.proposal_required_deposit {
            Some(v) => v,
            None => base.proposal_required_deposit,
        },
        proposal_required_quorum: match update.proposal_required_quorum {
            Some(v) => v,
            None => base.proposal_required_quorum,
        },
        proposal_required_threshold: match update.proposal_required_threshold {
            Some(v) => v,
            None => base.proposal_required_threshold,
        },
        whitelisted_links,
    };
    match config.validate() {
        Ok(_) => Ok(config),
        Err(e) => Err(e),
    }
}

} // verus!
