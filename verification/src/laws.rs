//! Global laws of the governance engine.
//!
//! The voting-power sources are outside this crate, so the facts that tie a
//! proposal's tallies to the electorate are stated against a ghost
//! electorate: a sequence of pairs of an account and its voting power at
//! the proposal's snapshot.  The central law bounds the cast power of a
//! proposal by the electorate's total power.

use vstd::prelude::*;
use vstd::seq_lib::*;

use crate::proposal::{proposal_matches, proposal_wf, Proposal};
use crate::seq_util::{lemma_filter_none, lemma_filter_push};
use crate::state::{
    id_at_least, proposals_match_seq, spec_page_limit, spec_vote_applied, GovState,
    ProposalListResponse,
};

verus! {

/// The total power of a ghost electorate: the sum of every entry's power.
pub open spec fn elig_sum(e: Seq<(Seq<char>, u128)>) -> int
    decreases e.len(),
{
    if e.len() == 0 {
        0
    } else {
        e.first().1 + elig_sum(e.drop_first())
    }
}

/// The power of one account in the electorate: the power of the first
/// entry for that account, or zero when there is none.
pub open spec fn epower(e: Seq<(Seq<char>, u128)>, a: Seq<char>) -> u128
    decreases e.len(),
{
    if e.len() == 0 {
        0u128
    } else if e.first().0 == a {
        e.first().1
    } else {
        epower(e.drop_first(), a)
    }
}

/// Whether the electorate has an entry for the account.
pub open spec fn has_addr(e: Seq<(Seq<char>, u128)>, a: Seq<char>) -> bool {
    exists|i: int| 0 <= i < e.len() && (#[trigger] e[i]).0 == a
}

/// The power contributed by a list of voters: the sum of each voter's
/// power in the electorate.
pub open spec fn voters_sum(vs: Seq<Seq<char>>, e: Seq<(Seq<char>, u128)>) -> int
    decreases vs.len(),
{
    if vs.len() == 0 {
        0
    } else {
        epower(e, vs.first()) + voters_sum(vs.drop_first(), e)
    }
}

/// The electorate's total power is never negative.
proof fn lemma_elig_sum_nonneg(e: Seq<(Seq<char>, u128)>)
    ensures
        elig_sum(e) >= 0,
    decreases e.len(),
{
    if e.len() > 0 {
        lemma_elig_sum_nonneg(e.drop_first());
    }
}

/// Removing one entry takes exactly its power out of the total.
proof fn lemma_elig_sum_remove(e: Seq<(Seq<char>, u128)>, i: int)
    requires
        0 <= i < e.len(),
    ensures
        elig_sum(e) == elig_sum(e.remove(i)) + e[i].1,
    decreases e.len(),
{
    if i == 0 {
        assert(e.remove(0) =~= e.drop_first());
    } else {
        assert(e.remove(i).first() == e.first());
        assert(e.remove(i).drop_first() =~= e.drop_first().remove(i - 1));
        lemma_elig_sum_remove(e.drop_first(), i - 1);
        assert(e.drop_first()[i - 1] == e[i]);
    }
}

/// Removing an entry of a different account changes no other account's
/// power.
proof fn lemma_epower_remove(e: Seq<(Seq<char>, u128)>, i: int, a: Seq<char>)
    requires
        0 <= i < e.len(),
        e[i].0 != a,
    ensures
        epower(e.remove(i), a) == epower(e, a),
    decreases e.len(),
{
    if i == 0 {
        assert(e.remove(0) =~= e.drop_first());
    } else {
        assert(e.remove(i).first() == e.first());
        assert(e.remove(i).drop_first() =~= e.drop_first().remove(i - 1));
        if e.first().0 != a {
            lemma_epower_remove(e.drop_first(), i - 1, a);
        }
    }
}

/// An account without an entry has zero power.
proof fn lemma_epower_absent(e: Seq<(Seq<char>, u128)>, a: Seq<char>)
    requires
        !has_addr(e, a),
    ensures
        epower(e, a) == 0,
    decreases e.len(),
{
    if e.len() > 0 {
        assert(e[0].0 != a);
        assert(!has_addr(e.drop_first(), a)) by {
            if has_addr(e.drop_first(), a) {
                let k = choose|k: int|
                    0 <= k < e.drop_first().len() && (#[trigger] e.drop_first()[k]).0 == a;
                assert(e[k + 1].0 == a);
            }
        }
        lemma_epower_absent(e.drop_first(), a);
    }
}

/// An account with an entry draws its power from its first entry.
proof fn lemma_epower_present(e: Seq<(Seq<char>, u128)>, a: Seq<char>)
    requires
        has_addr(e, a),
    ensures
        exists|i: int|
            0 <= i < e.len() && (#[trigger] e[i]).0 == a && e[i].1 == epower(e, a),
    decreases e.len(),
{
    if e.first().0 == a {
        assert(e[0].0 == a && e[0].1 == epower(e, a));
    } else {
        assert(has_addr(e.drop_first(), a)) by {
            let k = choose|k: int| 0 <= k < e.len() && (#[trigger] e[k]).0 == a;
            assert(e.drop_first()[k - 1].0 == a);
        }
        lemma_epower_present(e.drop_first(), a);
        let j = choose|j: int|
            0 <= j < e.drop_first().len() && (#[trigger] e.drop_first()[j]).0 == a
                && e.drop_first()[j].1 == epower(e.drop_first(), a);
        assert(e[j + 1].0 == a && e[j + 1].1 == epower(e, a));
    }
}

/// Voters whose individual powers agree in two electorates contribute the
/// same sum in both.
proof fn lemma_voters_sum_congruent(
    vs: Seq<Seq<char>>,
    e1: Seq<(Seq<char>, u128)>,
    e2: Seq<(Seq<char>, u128)>,
)
    requires
        forall|k: int| 0 <= k < vs.len() ==> epower(e1, #[trigger] vs[k]) == epower(e2, vs[k]),
    ensures
        voters_sum(vs, e1) == voters_sum(vs, e2),
    decreases vs.len(),
{
    if vs.len() > 0 {
        assert(forall|k: int|
            0 <= k < vs.drop_first().len() ==> #[trigger] vs.drop_first()[k] == vs[k + 1]);
        lemma_voters_sum_congruent(vs.drop_first(), e1, e2);
    }
}

/// Distinct voters can never contribute more than the electorate's total
/// power: each voter draws from a different entry.
pub proof fn lemma_voters_sum_bounded(vs: Seq<Seq<char>>, e: Seq<(Seq<char>, u128)>)
    requires
        vs.no_duplicates(),
    ensures
        voters_sum(vs, e) <= elig_sum(e),
    decreases vs.len(),
{
    if vs.len() == 0 {
        lemma_elig_sum_nonneg(e);
    } else {
        let v = vs.first();
        let rest = vs.drop_first();
        assert(forall|k: int| 0 <= k < rest.len() ==> #[trigger] rest[k] == vs[k + 1]);
        assert(rest.no_duplicates());
        if has_addr(e, v) {
            lemma_epower_present(e, v);
            let i = choose|i: int|
                0 <= i < e.len() && (#[trigger] e[i]).0 == v && e[i].1 == epower(e, v);
            let e2 = e.remove(i);
            lemma_elig_sum_remove(e, i);
            assert forall|k: int| 0 <= k < rest.len() implies epower(e, #[trigger] rest[k])
                == epower(e2, rest[k]) by {
                assert(rest[k] == vs[k + 1]);
                assert(vs[k + 1] != vs[0]);
                lemma_epower_remove(e, i, rest[k]);
            }
            lemma_voters_sum_congruent(rest, e, e2);
            lemma_voters_sum_bounded(rest, e2);
        } else {
            lemma_epower_absent(e, v);
            lemma_voters_sum_bounded(rest, e);
        }
    }
}

/// Appending one voter adds that voter's power to the contributed sum.
pub proof fn lemma_voters_sum_push(vs: Seq<Seq<char>>, v: Seq<char>, e: Seq<(Seq<char>, u128)>)
    ensures
        voters_sum(vs.push(v), e) == voters_sum(vs, e) + epower(e, v),
    decreases vs.len(),
{
    if vs.len() == 0 {
        assert(vs.push(v).drop_first() =~= vs);
    } else {
        assert(vs.push(v).first() == vs.first());
        assert(vs.push(v).drop_first() =~= vs.drop_first().push(v));
        lemma_voters_sum_push(vs.drop_first(), v, e);
    }
}

/// Splitting a voter list splits the contributed sum.
pub proof fn lemma_voters_sum_append(
    a: Seq<Seq<char>>,
    b: Seq<Seq<char>>,
    e: Seq<(Seq<char>, u128)>,
)
    ensures
        voters_sum(a + b, e) == voters_sum(a, e) + voters_sum(b, e),
    decreases a.len(),
{
    if a.len() == 0 {
        assert(a + b =~= b);
    } else {
        assert((a + b).first() == a.first());
        assert((a + b).drop_first() =~= a.drop_first() + b);
        lemma_voters_sum_append(a.drop_first(), b, e);
    }
}

/// Whether the proposal's tallies are accounted for by the electorate:
/// each side's power is the sum of its recorded voters' powers.
pub open spec fn tallies(p: Proposal, e: Seq<(Seq<char>, u128)>) -> bool {
    &&& p.for_power as int == voters_sum(p.for_voters.deep_view(), e)
    &&& p.against_power as int == voters_sum(p.against_voters.deep_view(), e)
}

/// Law: in a well-formed proposal, the two voter sets are disjoint — no
/// account ever appears on both sides.
pub proof fn lemma_voter_sets_disjoint(p: Proposal)
    requires
        proposal_wf(p),
    ensures
        forall|a: Seq<char>|
            !(p.for_voters.deep_view().contains(a) && p.against_voters.deep_view().contains(a)),
{
    assert forall|a: Seq<char>|
        !(p.for_voters.deep_view().contains(a) && p.against_voters.deep_view().contains(
            a,
        )) by {
        if p.for_voters.deep_view().contains(a) && p.against_voters.deep_view().contains(a) {
            let i = choose|i: int|
                0 <= i < p.for_voters.deep_view().len() && p.for_voters.deep_view()[i] == a;
            let j = choose|j: int|
                0 <= j < p.against_voters.deep_view().len() && p.against_voters.deep_view()[j]
                    == a;
            assert(p.for_voters.deep_view()[i] != p.against_voters.deep_view()[j]);
        }
    }
}

/// Law: in a well-formed proposal, the submitter has voted on neither
/// side — a submitter can never successfully vote on their own proposal.
pub proof fn lemma_submitter_never_votes(p: Proposal)
    requires
        proposal_wf(p),
    ensures
        !p.for_voters.deep_view().contains(p.submitter@),
        !p.against_voters.deep_view().contains(p.submitter@),
{
}

/// Law: a well-formed proposal whose tallies are accounted for by an
/// electorate never carries more cast power than the electorate's total —
/// `for_power + against_power` never exceeds the total power at the same
/// snapshot.
pub proof fn lemma_cast_power_bounded(p: Proposal, e: Seq<(Seq<char>, u128)>, total_power: u128)
    requires
        proposal_wf(p),
        tallies(p, e),
        elig_sum(e) <= total_power,
    ensures
        p.for_power + p.against_power <= total_power,
{
    let fv = p.for_voters.deep_view();
    let av = p.against_voters.deep_view();
    let all = fv + av;
    assert(all.no_duplicates()) by {
        assert forall|i: int, j: int|
            0 <= i < all.len() && 0 <= j < all.len() && i != j implies all[i] != all[j] by {
            if i < fv.len() && j < fv.len() {
            } else if i >= fv.len() && j >= fv.len() {
                assert(av[i - fv.len()] != av[j - fv.len()]);
            } else if i < fv.len() {
                assert(fv[i] != av[j - fv.len()]);
            } else {
                assert(fv[j] != av[i - fv.len()]);
            }
        }
    }
    lemma_voters_sum_append(fv, av, e);
    lemma_voters_sum_bounded(all, e);
}

/// Law: a proposal just submitted is returned exactly once, with identical
/// field values, when the proposals are then listed starting from its own
/// identifier with any positive page size.  `s1` is the state after the
/// submission appended `p` with the next identifier, and `r` is any result
/// that meets the list query's contract on `s1` for `start ==
/// Some(p.proposal_id)`.
pub proof fn lemma_submit_then_list(
    s0: GovState,
    s1: GovState,
    p: Proposal,
    r: ProposalListResponse,
    limit: Option<u32>,
)
    requires
        s0.wf(),
        s1.proposals@ == s0.proposals@.push(p),
        p.proposal_id == s0.proposal_count + 1,
        spec_page_limit(limit) >= 1,
        ({
            let eligible = s1.proposals@.filter(id_at_least(p.proposal_id));
            let lim = spec_page_limit(limit);
            let n = if lim <= eligible.len() {
                lim
            } else {
                eligible.len() as int
            };
            proposals_match_seq(r.proposal_list@, eligible.take(n))
        }),
    ensures
        r.proposal_list@.len() == 1,
        proposal_matches(r.proposal_list@[0], p),
{
    let pred = id_at_least(p.proposal_id);
    let eligible = s1.proposals@.filter(pred);
    assert forall|i: int| 0 <= i < s0.proposals@.len() implies !pred(
        #[trigger] s0.proposals@[i],
    ) by {
        assert(s0.proposals@[i].proposal_id <= s0.proposal_count);
    }
    lemma_filter_none(s0.proposals@, pred);
    lemma_filter_push(s0.proposals@, p, pred);
    assert(pred(p));
    assert(eligible =~= seq![p]);
    assert(eligible.take(1) =~= seq![p]);
}

/// Law: casting a vote whose power is the voter's power in the electorate
/// keeps the tallies accounted for by that electorate.
pub proof fn lemma_vote_preserves_tallies(
    p2: Proposal,
    p: Proposal,
    e: Seq<(Seq<char>, u128)>,
    voter: Seq<char>,
    vote: crate::proposal::ProposalVoteOption,
    power: u128,
)
    requires
        tallies(p, e),
        spec_vote_applied(p2, p, voter, vote, power),
        power == epower(e, voter),
    ensures
        tallies(p2, e),
{
    match vote {
        crate::proposal::ProposalVoteOption::For => {
            lemma_voters_sum_push(p.for_voters.deep_view(), voter, e);
        },
        crate::proposal::ProposalVoteOption::Against => {
            lemma_voters_sum_push(p.against_voters.deep_view(), voter, e);
        },
    }
}

} // verus!
