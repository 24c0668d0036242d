//! Ordering tests for the message execution engine: ascending order keys,
//! stability on equal keys, and the dry-run sentinel.

use astro_assembly::error::ContractError;
use astro_assembly::messages::{
    check_messages, check_messages_passed, extract_instructions, sort_proposal_messages,
    ProposalMessage,
};
use cosmwasm_std::{BankMsg, CosmosMsg};

fn bank_msg(tag: &str) -> CosmosMsg {
    CosmosMsg::Bank(BankMsg::Send {
        to_address: tag.to_string(),
        amount: vec![],
    })
}

fn tags(msgs: &[ProposalMessage]) -> Vec<String> {
    msgs.iter()
        .map(|m| match &m.msg {
            CosmosMsg::Bank(BankMsg::Send { to_address, .. }) => to_address.clone(),
            _ => panic!("unexpected message"),
        })
        .collect()
}

#[test]
fn sort_orders_by_key() {
    let mut msgs = vec![
        ProposalMessage { order: 5, msg: bank_msg("e") },
        ProposalMessage { order: 3, msg: bank_msg("c") },
        ProposalMessage { order: 4, msg: bank_msg("d") },
        ProposalMessage { order: 1, msg: bank_msg("a") },
        ProposalMessage { order: 2, msg: bank_msg("b") },
    ];
    sort_proposal_messages(&mut msgs);
    let orders: Vec<u64> = msgs.iter().map(|m| m.order).collect();
    assert_eq!(orders, vec![1, 2, 3, 4, 5]);
    assert_eq!(tags(&msgs), vec!["a", "b", "c", "d", "e"]);
}

#[test]
fn sort_is_stable_on_equal_keys() {
    let mut msgs = vec![
        ProposalMessage { order: 2, msg: bank_msg("first-two") },
        ProposalMessage { order: 1, msg: bank_msg("first-one") },
        ProposalMessage { order: 2, msg: bank_msg("second-two") },
        ProposalMessage { order: 1, msg: bank_msg("second-one") },
        ProposalMessage { order: 2, msg: bank_msg("third-two") },
    ];
    sort_proposal_messages(&mut msgs);
    let orders: Vec<u64> = msgs.iter().map(|m| m.order).collect();
    assert_eq!(orders, vec![1, 1, 2, 2, 2]);
    assert_eq!(
        tags(&msgs),
        vec!["first-one", "second-one", "first-two", "second-two", "third-two"]
    );
}

#[test]
fn sort_handles_empty_and_single() {
    let mut empty: Vec<ProposalMessage> = vec![];
    sort_proposal_messages(&mut empty);
    assert!(empty.is_empty());

    let mut one = vec![ProposalMessage { order: 9, msg: bank_msg("x") }];
    sort_proposal_messages(&mut one);
    assert_eq!(one.len(), 1);
    assert_eq!(one[0].order, 9);
}

#[test]
fn extract_keeps_order() {
    let msgs = vec![
        ProposalMessage { order: 1, msg: bank_msg("a") },
        ProposalMessage { order: 2, msg: bank_msg("b") },
    ];
    let instructions = extract_instructions(&msgs);
    assert_eq!(instructions, vec![bank_msg("a"), bank_msg("b")]);
}

#[test]
fn check_messages_sorts_and_targets_self() {
    let msgs = vec![
        ProposalMessage { order: 2, msg: bank_msg("late") },
        ProposalMessage { order: 1, msg: bank_msg("early") },
        ProposalMessage { order: 2, msg: bank_msg("later") },
    ];
    let plan = check_messages("assembly".to_string(), msgs);
    assert_eq!(plan.sentinel_contract, "assembly");
    let orders: Vec<u64> = plan.messages.iter().map(|m| m.order).collect();
    assert_eq!(orders, vec![1, 2, 2]);
    assert_eq!(tags(&plan.messages), vec!["early", "late", "later"]);
}

#[test]
fn check_messages_passed_always_fails() {
    assert_eq!(
        check_messages_passed(),
        Err(ContractError::MessagesCheckPassed)
    );
}
