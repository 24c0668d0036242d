//! The message execution engine's data and ordering logic.
//!
//! A proposal carries an optional list of actions, each an explicit order
//! key plus an opaque chain-executable instruction.  Before dispatch the
//! list is sorted by ascending order key with a stable sort: actions whose
//! keys are equal keep their original relative order.

use vstd::prelude::*;
use vstd::seq_lib::*;

use crate::error::ContractError;

verus! {

/// The host chain's executable instruction type, opaque to this crate.
#[verifier::external_type_specification]
#[verifier::external_body]
#[verifier::reject_recursive_types(T)]
pub struct ExCosmosMsg<T>(cosmwasm_std::CosmosMsg<T>);

/// The host chain's unit type, the default custom-message parameter.
#[verifier::external_type_specification]
#[verifier::external_body]
pub struct ExEmpty(cosmwasm_std::Empty);

/// Relies on the derived `Clone` of cosmwasm_std::CosmosMsg, which returns a
/// value equal to the original.
#[verifier::external_body]
pub(crate) fn clone_cosmos_msg(msg: &cosmwasm_std::CosmosMsg) -> (r: cosmwasm_std::CosmosMsg)
    ensures
        r == *msg,
{
    msg.clone()
}

/// One action of a proposal: an explicit execution order key plus the
/// instruction to execute.
#[derive(Debug)]
pub struct ProposalMessage {
    /// Order of execution of the message.
    pub order: u64,
    /// Execution message.
    pub msg: cosmwasm_std::CosmosMsg,
}

impl Clone for ProposalMessage {
    fn clone(&self) -> (r: Self)
        ensures
            r == *self,
    {
        ProposalMessage { order: self.order, msg: clone_cosmos_msg(&self.msg) }
    }
}

/// Whether the actions are in non-decreasing order-key order.
pub open spec fn sorted_by_order(s: Seq<ProposalMessage>) -> bool {
    forall|i: int, j: int| 0 <= i < j < s.len() ==> #[trigger] s[i].order <= #[trigger] s[j].order
}

/// The predicate holding of the actions whose order key equals `key`.
pub open spec fn order_pred(key: u64) -> spec_fn(ProposalMessage) -> bool {
    |m: ProposalMessage| m.order == key
}

/// The subsequence of actions whose order key equals `key`, in their
/// original relative order.
pub open spec fn with_order(s: Seq<ProposalMessage>, key: u64) -> Seq<ProposalMessage> {
    s.filter(order_pred(key))
}

/// Whether `r` is the stable ascending reordering of `s`: it is sorted by
/// order key, and actions with equal keys keep their relative order.  These
/// conditions determine `r` uniquely.
pub open spec fn stable_sorted_of(r: Seq<ProposalMessage>, s: Seq<ProposalMessage>) -> bool {
    &&& sorted_by_order(r)
    &&& forall|key: u64| #[trigger] with_order(r, key) == with_order(s, key)
    &&& r.len() == s.len()
}

/// Swapping two adjacent actions with distinct order keys leaves every
/// per-key subsequence unchanged.
proof fn lemma_with_order_swap(s: Seq<ProposalMessage>, p: int)
    requires
        0 <= p,
        p + 1 < s.len(),
        s[p].order != s[p + 1].order,
    ensures
        forall|key: u64| #[trigger] with_order(s.update(p, s[p + 1]).update(p + 1, s[p]), key)
            == with_order(s, key),
{
    let t = s.update(p, s[p + 1]).update(p + 1, s[p]);
    let x = s[p];
    let y = s[p + 1];
    let a = s.subrange(0, p);
    let b = s.subrange(p + 2, s.len() as int);
    assert(s =~= a + (seq![x] + seq![y]) + b);
    assert(t =~= a + (seq![y] + seq![x]) + b);
    assert forall|key: u64| #[trigger] with_order(t, key) == with_order(s, key) by {
        let pred = order_pred(key);
        reveal_with_fuel(Seq::filter, 2);
        assert(seq![x].drop_last() =~= Seq::<ProposalMessage>::empty());
        assert(seq![y].drop_last() =~= Seq::<ProposalMessage>::empty());
        Seq::filter_distributes_over_add(a + (seq![x] + seq![y]), b, pred);
        Seq::filter_distributes_over_add(a, seq![x] + seq![y], pred);
        Seq::filter_distributes_over_add(seq![x], seq![y], pred);
        Seq::filter_distributes_over_add(a + (seq![y] + seq![x]), b, pred);
        Seq::filter_distributes_over_add(a, seq![y] + seq![x], pred);
        Seq::filter_distributes_over_add(seq![y], seq![x], pred);
        assert(seq![x].filter(pred) + seq![y].filter(pred) =~= seq![y].filter(pred) + seq![
            x,
        ].filter(pred));
    }
}

/// Sorts the actions by ascending order key with a stable insertion sort.
pub fn sort_proposal_messages(msgs: &mut Vec<ProposalMessage>)
    ensures
        stable_sorted_of(final(msgs)@, old(msgs)@),
{
    let ghost orig = msgs@;
    let n = msgs.len();
    let mut i: usize = 1;
    while i < n
        invariant
            1 <= i,
            i <= n || n == 0,
            msgs@.len() == n,
            orig.len() == n,
            forall|a: int, b: int| 0 <= a < b < i ==> #[trigger] msgs@[a].order
                <= #[trigger] msgs@[b].order,
            forall|key: u64| #[trigger] with_order(msgs@, key) == with_order(orig, key),
        decreases n - i,
    {
        let mut j: usize = i;
        while j > 0 && msgs[j - 1].order > msgs[j].order
            invariant
                j <= i < n,
                msgs@.len() == n,
                forall|a: int, b: int|
                    0 <= a < b <= i && b != j ==> #[trigger] msgs@[a].order
                        <= #[trigger] msgs@[b].order,
                forall|a: int| j < a <= i ==> msgs@[j as int].order < #[trigger] msgs@[a].order,
                forall|key: u64| #[trigger] with_order(msgs@, key) == with_order(orig, key),
            decreases j,
        {
            let ghost pre = msgs@;
            let moved = msgs.remove(j);
            msgs.insert(j - 1, moved);
            proof {
                assert(msgs@ =~= pre.update(j - 1, pre[j as int]).update(j as int, pre[j - 1]));
                lemma_with_order_swap(pre, j - 1);
            }
            j = j - 1;
        }
        i = i + 1;
    }
}

/// The instructions of the actions, in the order given.
pub open spec fn instructions_of(s: Seq<ProposalMessage>) -> Seq<cosmwasm_std::CosmosMsg> {
    s.map_values(|m: ProposalMessage| m.msg)
}

/// Extracts each action's instruction, keeping the order.
pub fn extract_instructions(msgs: &Vec<ProposalMessage>) -> (r: Vec<cosmwasm_std::CosmosMsg>)
    ensures
        r@ == instructions_of(msgs@),
{
    let mut out: Vec<cosmwasm_std::CosmosMsg> = Vec::new();
    let mut i: usize = 0;
    while i < msgs.len()
        invariant
            i <= msgs@.len(),
            out@.len() == i,
            forall|k: int| 0 <= k < i ==> #[trigger] out@[k] == msgs@[k].msg,
        decreases msgs@.len() - i,
    {
        out.push(clone_cosmos_msg(&msgs[i].msg));
        i = i + 1;
    }
    proof {
        assert(out@ =~= instructions_of(msgs@));
    }
    out
}

/// The dry-run validation plan for a candidate action list: the actions in
/// ascending order-key order, followed by one self-call sentinel that the
/// governance contract answers with the `MessagesCheckPassed` error, so that
/// a dry run can never be mistaken for a real commit.
pub struct CheckMessagesPlan {
    /// The candidate actions, sorted by ascending order key.
    pub messages: Vec<ProposalMessage>,
    /// The governance contract's own address: the target of the final
    /// self-call sentinel action.
    pub sentinel_contract: String,
}

/// Orders a candidate action list for a dry run, without touching any
/// stored proposal.  The returned plan ends in a self-call sentinel that,
/// if executed, unconditionally fails with `MessagesCheckPassed`.
pub fn check_messages(contract_address: String, messages: Vec<ProposalMessage>) -> (plan:
    CheckMessagesPlan)
    ensures
        stable_sorted_of(plan.messages@, messages@),
        plan.sentinel_contract@ == contract_address@,
{
    let mut msgs = messages;
    sort_proposal_messages(&mut msgs);
    CheckMessagesPlan { messages: msgs, sentinel_contract: contract_address }
}

/// The sentinel's answer: executing the dry-run self-call always fails with
/// the distinct `MessagesCheckPassed` error and commits nothing.
pub fn check_messages_passed() -> (r: Result<(), ContractError>)
    ensures
        r == Err::<(), ContractError>(ContractError::MessagesCheckPassed),
{
    Err(ContractError::MessagesCheckPassed)
}

} // verus!
