//! End-to-end lifecycle tests: submit, vote, end, execute, remove, and the
//! remote-completion callback.

use astro_assembly::config::Config;
use astro_assembly::error::ContractError;
use astro_assembly::messages::ProposalMessage;
use astro_assembly::proposal::{ProposalStatus, ProposalVoteOption};
use astro_assembly::ratio::Ratio;
use astro_assembly::state::{ExecuteOutcome, GovState};
use cosmwasm_std::{BankMsg, CosmosMsg};

const QUORUM_TENTH: u128 = 100_000_000_000_000_000;
const THRESHOLD_HALF: u128 = 500_000_000_000_000_000;
const TOTAL_POWER: u128 = 1_000_000;

fn test_config(controller: Option<&str>) -> Config {
    Config {
        xastro_token_addr: "token".to_string(),
        vxastro_token_addr: None,
        ibc_controller: controller.map(|c| c.to_string()),
        builder_unlock_addr: "builder".to_string(),
        proposal_voting_period: 10,
        proposal_effective_delay: 2,
        proposal_expiration_period: 5,
        proposal_required_deposit: 100,
        proposal_required_quorum: Ratio { atomics: QUORUM_TENTH },
        proposal_required_threshold: Ratio { atomics: THRESHOLD_HALF },
        whitelisted_links: vec!["https://example.com/".to_string()],
    }
}

fn fresh_state(controller: Option<&str>) -> GovState {
    GovState::new(test_config(controller)).expect("valid config")
}

fn bank_msg(tag: &str) -> CosmosMsg {
    CosmosMsg::Bank(BankMsg::Send {
        to_address: tag.to_string(),
        amount: vec![],
    })
}

fn submit_plain(state: &mut GovState) -> u64 {
    state
        .submit_proposal(
            100,
            5000,
            &"token".to_string(),
            "alice".to_string(),
            100,
            "title".to_string(),
            "description".to_string(),
            None,
            None,
            None,
            None,
        )
        .expect("submission accepted")
}

fn submit_with(
    state: &mut GovState,
    messages: Option<Vec<ProposalMessage>>,
    ibc_channel: Option<String>,
    channels: Option<Vec<String>>,
) -> Result<u64, ContractError> {
    state.submit_proposal(
        100,
        5000,
        &"token".to_string(),
        "alice".to_string(),
        100,
        "title".to_string(),
        "description".to_string(),
        None,
        messages,
        ibc_channel,
        channels,
    )
}

#[test]
fn submit_assigns_ascending_ids() {
    let mut state = fresh_state(None);
    assert_eq!(submit_plain(&mut state), 1);
    assert_eq!(submit_plain(&mut state), 2);
    assert_eq!(submit_plain(&mut state), 3);
    let p = state.query_proposal(2).unwrap();
    assert_eq!(p.proposal_id, 2);
    assert_eq!(p.submitter, "alice");
    assert_eq!(p.status, ProposalStatus::Active);
    assert_eq!(p.start_block, 100);
    assert_eq!(p.start_time, 5000);
    assert_eq!(p.end_block, 110);
    assert_eq!(p.deposit_amount, 100);
}

#[test]
fn submit_rejects_wrong_token_sender() {
    let mut state = fresh_state(None);
    let r = state.submit_proposal(
        100,
        5000,
        &"mallory".to_string(),
        "alice".to_string(),
        100,
        "t".to_string(),
        "d".to_string(),
        None,
        None,
        None,
        None,
    );
    assert_eq!(r, Err(ContractError::Unauthorized));
}

#[test]
fn submit_rejects_small_deposit() {
    let mut state = fresh_state(None);
    let r = state.submit_proposal(
        100,
        5000,
        &"token".to_string(),
        "alice".to_string(),
        99,
        "t".to_string(),
        "d".to_string(),
        None,
        None,
        None,
        None,
    );
    assert_eq!(r, Err(ContractError::InsufficientDeposit));
}

#[test]
fn submit_validates_link_against_whitelist() {
    let mut state = fresh_state(None);
    let r = state.submit_proposal(
        100,
        5000,
        &"token".to_string(),
        "alice".to_string(),
        100,
        "t".to_string(),
        "d".to_string(),
        Some("https://evil.example.net/x".to_string()),
        None,
        None,
        None,
    );
    assert_eq!(r, Err(ContractError::LinkNotWhitelisted));
    let ok = state.submit_proposal(
        100,
        5000,
        &"token".to_string(),
        "alice".to_string(),
        100,
        "t".to_string(),
        "d".to_string(),
        Some("https://example.com/proposal/1".to_string()),
        None,
        None,
        None,
    );
    assert_eq!(ok, Ok(1));
}

#[test]
fn submit_channel_needs_controller_and_listing() {
    let mut state = fresh_state(None);
    let r = submit_with(&mut state, None, Some("channel-1".to_string()), None);
    assert_eq!(r, Err(ContractError::MissingIBCController));

    let mut state = fresh_state(Some("ctrl"));
    let r = submit_with(
        &mut state,
        None,
        Some("channel-9".to_string()),
        Some(vec!["channel-1".to_string(), "channel-2".to_string()]),
    );
    assert_eq!(r, Err(ContractError::InvalidChannel("channel-9".to_string())));

    let ok = submit_with(
        &mut state,
        None,
        Some("channel-2".to_string()),
        Some(vec!["channel-1".to_string(), "channel-2".to_string()]),
    );
    assert_eq!(ok, Ok(1));
}

#[test]
fn cast_vote_rules() {
    let mut state = fresh_state(None);
    let id = submit_plain(&mut state);

    // unknown proposal
    assert_eq!(
        state.cast_vote(101, &"bob".to_string(), 99, ProposalVoteOption::For, 10),
        Err(ContractError::ProposalNotFound)
    );
    // the submitter cannot vote on their own proposal
    assert_eq!(
        state.cast_vote(101, &"alice".to_string(), id, ProposalVoteOption::For, 10),
        Err(ContractError::Unauthorized)
    );
    // voting after the end block is rejected
    assert_eq!(
        state.cast_vote(111, &"bob".to_string(), id, ProposalVoteOption::For, 10),
        Err(ContractError::VotingPeriodEnded)
    );
    // zero voting power is rejected
    assert_eq!(
        state.cast_vote(101, &"bob".to_string(), id, ProposalVoteOption::For, 0),
        Err(ContractError::NoVotingPower)
    );
    // a valid vote is recorded
    assert_eq!(
        state.cast_vote(101, &"bob".to_string(), id, ProposalVoteOption::For, 120_000),
        Ok(())
    );
    // voting twice is rejected, also on the other side
    assert_eq!(
        state.cast_vote(102, &"bob".to_string(), id, ProposalVoteOption::Against, 10),
        Err(ContractError::UserAlreadyVoted)
    );
    let votes = state.query_proposal_votes(id).unwrap();
    assert_eq!(votes.proposal_id, id);
    assert_eq!(votes.for_power, 120_000);
    assert_eq!(votes.against_power, 0);
}

#[test]
fn cast_vote_power_overflow_is_reported() {
    let mut state = fresh_state(None);
    let id = submit_plain(&mut state);
    assert_eq!(
        state.cast_vote(101, &"bob".to_string(), id, ProposalVoteOption::For, u128::MAX),
        Ok(())
    );
    assert_eq!(
        state.cast_vote(101, &"carol".to_string(), id, ProposalVoteOption::For, 1),
        Err(ContractError::Overflow)
    );
}

#[test]
fn end_proposal_scenario_passed() {
    // electorate 1,000,000; for 120,000, against 60,000:
    // quorum 0.18 >= 0.10 and threshold 2/3 > 0.50 -> Passed
    let mut state = fresh_state(None);
    let id = submit_plain(&mut state);
    state
        .cast_vote(101, &"bob".to_string(), id, ProposalVoteOption::For, 120_000)
        .unwrap();
    state
        .cast_vote(101, &"carol".to_string(), id, ProposalVoteOption::Against, 60_000)
        .unwrap();
    // too early
    assert!(matches!(
        state.end_proposal(110, id, TOTAL_POWER),
        Err(ContractError::VotingPeriodNotEnded)
    ));
    let refund = state.end_proposal(111, id, TOTAL_POWER).unwrap();
    assert_eq!(refund.token, "token");
    assert_eq!(refund.recipient, "alice");
    assert_eq!(refund.amount, 100);
    assert_eq!(state.query_proposal(id).unwrap().status, ProposalStatus::Passed);
    // ending twice is rejected
    assert!(matches!(
        state.end_proposal(112, id, TOTAL_POWER),
        Err(ContractError::ProposalNotActive)
    ));
}

#[test]
fn end_proposal_scenario_quorum_missed() {
    // for 40,000, against 10,000: quorum 0.05 < 0.10 -> Rejected,
    // though the threshold 0.8 would have passed
    let mut state = fresh_state(None);
    let id = submit_plain(&mut state);
    state
        .cast_vote(101, &"bob".to_string(), id, ProposalVoteOption::For, 40_000)
        .unwrap();
    state
        .cast_vote(101, &"carol".to_string(), id, ProposalVoteOption::Against, 10_000)
        .unwrap();
    let refund = state.end_proposal(111, id, TOTAL_POWER).unwrap();
    assert_eq!(refund.recipient, "alice");
    assert_eq!(refund.amount, 100);
    assert_eq!(state.query_proposal(id).unwrap().status, ProposalStatus::Rejected);
}

#[test]
fn end_proposal_scenario_no_votes() {
    // zero votes cast: quorum and threshold are zero -> Rejected
    let mut state = fresh_state(None);
    let id = submit_plain(&mut state);
    let refund = state.end_proposal(111, id, TOTAL_POWER).unwrap();
    assert_eq!(refund.amount, 100);
    assert_eq!(state.query_proposal(id).unwrap().status, ProposalStatus::Rejected);
}

#[test]
fn end_proposal_empty_electorate_rejects() {
    // a zero total power yields a zero quorum, below any positive bound
    let mut state = fresh_state(None);
    let id = submit_plain(&mut state);
    state
        .cast_vote(101, &"bob".to_string(), id, ProposalVoteOption::For, 10)
        .unwrap();
    let _ = state.end_proposal(111, id, 0).unwrap();
    assert_eq!(state.query_proposal(id).unwrap().status, ProposalStatus::Rejected);
}

#[test]
fn end_proposal_overflow_is_reported() {
    // the cast total cannot be summed
    let mut state = fresh_state(None);
    let id = submit_plain(&mut state);
    state
        .cast_vote(101, &"bob".to_string(), id, ProposalVoteOption::For, u128::MAX)
        .unwrap();
    state
        .cast_vote(101, &"carol".to_string(), id, ProposalVoteOption::Against, 1)
        .unwrap();
    assert!(matches!(
        state.end_proposal(111, id, TOTAL_POWER),
        Err(ContractError::Overflow)
    ));

    // the quorum ratio cannot be represented
    let mut state = fresh_state(None);
    let id = submit_plain(&mut state);
    state
        .cast_vote(101, &"bob".to_string(), id, ProposalVoteOption::For, u128::MAX)
        .unwrap();
    assert!(matches!(
        state.end_proposal(111, id, 1),
        Err(ContractError::Overflow)
    ));
}

#[test]
fn end_proposal_threshold_not_strict_enough() {
    // for == against: threshold exactly 0.5 is not strictly above 0.5 -> Rejected
    let mut state = fresh_state(None);
    let id = submit_plain(&mut state);
    state
        .cast_vote(101, &"bob".to_string(), id, ProposalVoteOption::For, 100_000)
        .unwrap();
    state
        .cast_vote(101, &"carol".to_string(), id, ProposalVoteOption::Against, 100_000)
        .unwrap();
    let _ = state.end_proposal(111, id, TOTAL_POWER).unwrap();
    assert_eq!(state.query_proposal(id).unwrap().status, ProposalStatus::Rejected);
}

fn passed_proposal(state: &mut GovState) -> u64 {
    let id = submit_plain(state);
    state
        .cast_vote(101, &"bob".to_string(), id, ProposalVoteOption::For, 120_000)
        .unwrap();
    state.end_proposal(111, id, TOTAL_POWER).unwrap();
    id
}

#[test]
fn execute_window_is_enforced() {
    // end_block 110, delay 2, expiration 5: allowed in [112, 117]
    let mut state = fresh_state(None);
    let id = passed_proposal(&mut state);
    assert!(matches!(
        state.execute_proposal(111, id),
        Err(ContractError::ProposalDelayNotEnded)
    ));
    assert!(matches!(
        state.execute_proposal(118, id),
        Err(ContractError::ExecuteProposalExpired)
    ));
    assert!(state.execute_proposal(112, id).is_ok());
    assert_eq!(state.query_proposal(id).unwrap().status, ProposalStatus::Executed);
    // executing twice is rejected
    assert!(matches!(
        state.execute_proposal(113, id),
        Err(ContractError::ProposalNotPassed)
    ));
}

#[test]
fn execute_accepted_at_both_window_bounds() {
    let mut state = fresh_state(None);
    let id = passed_proposal(&mut state);
    assert!(state.execute_proposal(117, id).is_ok());

    let mut state = fresh_state(None);
    let id = passed_proposal(&mut state);
    assert!(state.execute_proposal(112, id).is_ok());
}

#[test]
fn execute_emits_actions_sorted() {
    let mut state = fresh_state(None);
    let msgs = vec![
        ProposalMessage { order: 3, msg: bank_msg("third") },
        ProposalMessage { order: 1, msg: bank_msg("first") },
        ProposalMessage { order: 2, msg: bank_msg("second") },
    ];
    let id = submit_with(&mut state, Some(msgs), None, None).unwrap();
    state
        .cast_vote(101, &"bob".to_string(), id, ProposalVoteOption::For, 120_000)
        .unwrap();
    state.end_proposal(111, id, TOTAL_POWER).unwrap();
    match state.execute_proposal(112, id).unwrap() {
        ExecuteOutcome::Local { messages } => {
            let orders: Vec<u64> = messages.iter().map(|m| m.order).collect();
            assert_eq!(orders, vec![1, 2, 3]);
            assert_eq!(messages[0].msg, bank_msg("first"));
            assert_eq!(messages[1].msg, bank_msg("second"));
            assert_eq!(messages[2].msg, bank_msg("third"));
        }
        ExecuteOutcome::Remote { .. } => panic!("expected local execution"),
    }
}

#[test]
fn execute_with_channel_forwards_to_controller() {
    let mut state = fresh_state(Some("ctrl"));
    let msgs = vec![
        ProposalMessage { order: 2, msg: bank_msg("b") },
        ProposalMessage { order: 1, msg: bank_msg("a") },
    ];
    let id = submit_with(
        &mut state,
        Some(msgs),
        Some("channel-1".to_string()),
        Some(vec!["channel-1".to_string()]),
    )
    .unwrap();
    state
        .cast_vote(101, &"bob".to_string(), id, ProposalVoteOption::For, 120_000)
        .unwrap();
    state.end_proposal(111, id, TOTAL_POWER).unwrap();
    match state.execute_proposal(112, id).unwrap() {
        ExecuteOutcome::Remote { controller, channel_id, proposal_id, messages } => {
            assert_eq!(controller, "ctrl");
            assert_eq!(channel_id, "channel-1");
            assert_eq!(proposal_id, id);
            let orders: Vec<u64> = messages.iter().map(|m| m.order).collect();
            assert_eq!(orders, vec![1, 2]);
        }
        ExecuteOutcome::Local { .. } => panic!("expected remote execution"),
    }
    assert_eq!(state.query_proposal(id).unwrap().status, ProposalStatus::InProgress);
}

#[test]
fn execute_with_channel_but_no_actions_completes_directly() {
    let mut state = fresh_state(Some("ctrl"));
    let id = submit_with(
        &mut state,
        None,
        Some("channel-1".to_string()),
        Some(vec!["channel-1".to_string()]),
    )
    .unwrap();
    state
        .cast_vote(101, &"bob".to_string(), id, ProposalVoteOption::For, 120_000)
        .unwrap();
    state.end_proposal(111, id, TOTAL_POWER).unwrap();
    match state.execute_proposal(112, id).unwrap() {
        ExecuteOutcome::Local { messages } => assert!(messages.is_empty()),
        ExecuteOutcome::Remote { .. } => panic!("nothing to forward"),
    }
    assert_eq!(state.query_proposal(id).unwrap().status, ProposalStatus::Executed);
}

#[test]
fn remote_completion_callback_rules() {
    let mut state = fresh_state(Some("ctrl"));
    let id = submit_with(
        &mut state,
        Some(vec![ProposalMessage { order: 1, msg: bank_msg("a") }]),
        Some("channel-1".to_string()),
        Some(vec!["channel-1".to_string()]),
    )
    .unwrap();
    state
        .cast_vote(101, &"bob".to_string(), id, ProposalVoteOption::For, 120_000)
        .unwrap();
    state.end_proposal(111, id, TOTAL_POWER).unwrap();

    // only an InProgress proposal can be completed
    assert_eq!(
        state.update_ibc_proposal_status(&"ctrl".to_string(), id, ProposalStatus::Executed),
        Err(ContractError::NotUpdatedProposalStatus)
    );
    state.execute_proposal(112, id).unwrap();

    // only the configured controller may report
    assert_eq!(
        state.update_ibc_proposal_status(&"mallory".to_string(), id, ProposalStatus::Executed),
        Err(ContractError::InvalidIBCController)
    );
    // only Executed or Failed may be reported
    assert_eq!(
        state.update_ibc_proposal_status(&"ctrl".to_string(), id, ProposalStatus::Passed),
        Err(ContractError::InvalidIBCProposalStatus(ProposalStatus::Passed))
    );
    // a valid report is stored
    assert_eq!(
        state.update_ibc_proposal_status(&"ctrl".to_string(), id, ProposalStatus::Failed),
        Ok(())
    );
    assert_eq!(state.query_proposal(id).unwrap().status, ProposalStatus::Failed);
    // and the proposal is no longer InProgress afterwards
    assert_eq!(
        state.update_ibc_proposal_status(&"ctrl".to_string(), id, ProposalStatus::Executed),
        Err(ContractError::NotUpdatedProposalStatus)
    );
}

#[test]
fn callback_without_controller_is_unauthorized() {
    let mut state = fresh_state(None);
    let id = submit_plain(&mut state);
    assert_eq!(
        state.update_ibc_proposal_status(&"ctrl".to_string(), id, ProposalStatus::Executed),
        Err(ContractError::InvalidIBCController)
    );
}

#[test]
fn remove_completed_proposal_rules() {
    let mut state = fresh_state(None);
    let id = submit_plain(&mut state);
    // an active proposal inside its window is not completed
    assert_eq!(
        state.remove_completed_proposal(105, id),
        Err(ContractError::ProposalNotCompleted)
    );
    // a rejected proposal can be removed
    state.end_proposal(111, id, TOTAL_POWER).unwrap();
    assert_eq!(state.remove_completed_proposal(112, id), Ok(()));
    assert!(matches!(
        state.query_proposal(id),
        Err(ContractError::ProposalNotFound)
    ));
    // an active proposal past the execution window counts as expired
    let id2 = submit_plain(&mut state);
    assert_eq!(state.remove_completed_proposal(118, id2), Ok(()));
    assert!(matches!(
        state.query_proposal(id2),
        Err(ContractError::ProposalNotFound)
    ));
}

#[test]
fn submit_then_list_round_trip() {
    let mut state = fresh_state(None);
    let id = state
        .submit_proposal(
            100,
            5000,
            &"token".to_string(),
            "alice".to_string(),
            250,
            "my title".to_string(),
            "my description".to_string(),
            Some("https://example.com/p".to_string()),
            Some(vec![ProposalMessage { order: 7, msg: bank_msg("x") }]),
            None,
            None,
        )
        .unwrap();
    let page = state.query_proposals(Some(id), None);
    assert_eq!(page.proposal_count, 1);
    assert_eq!(page.proposal_list.len(), 1);
    let p = &page.proposal_list[0];
    assert_eq!(p.proposal_id, id);
    assert_eq!(p.submitter, "alice");
    assert_eq!(p.status, ProposalStatus::Active);
    assert_eq!(p.for_power, 0);
    assert_eq!(p.against_power, 0);
    assert!(p.for_voters.is_empty());
    assert!(p.against_voters.is_empty());
    assert_eq!(p.start_block, 100);
    assert_eq!(p.start_time, 5000);
    assert_eq!(p.end_block, 110);
    assert_eq!(p.title, "my title");
    assert_eq!(p.description, "my description");
    assert_eq!(p.link, Some("https://example.com/p".to_string()));
    let msgs = p.messages.as_ref().unwrap();
    assert_eq!(msgs.len(), 1);
    assert_eq!(msgs[0].order, 7);
    assert_eq!(msgs[0].msg, bank_msg("x"));
    assert_eq!(p.deposit_amount, 250);
    assert_eq!(p.ibc_channel, None);
}

#[test]
fn list_pagination() {
    let mut state = fresh_state(None);
    for _ in 0..5 {
        submit_plain(&mut state);
    }
    let page = state.query_proposals(None, Some(2));
    assert_eq!(page.proposal_count, 5);
    let ids: Vec<u64> = page.proposal_list.iter().map(|p| p.proposal_id).collect();
    assert_eq!(ids, vec![1, 2]);

    let page = state.query_proposals(Some(3), Some(2));
    let ids: Vec<u64> = page.proposal_list.iter().map(|p| p.proposal_id).collect();
    assert_eq!(ids, vec![3, 4]);

    let page = state.query_proposals(Some(4), None);
    let ids: Vec<u64> = page.proposal_list.iter().map(|p| p.proposal_id).collect();
    assert_eq!(ids, vec![4, 5]);

    let page = state.query_proposals(None, Some(0));
    assert!(page.proposal_list.is_empty());

    let page = state.query_proposals(Some(99), None);
    assert!(page.proposal_list.is_empty());
}

#[test]
fn list_limit_default_and_cap() {
    let mut state = fresh_state(None);
    for _ in 0..35 {
        submit_plain(&mut state);
    }
    // default page size
    let page = state.query_proposals(None, None);
    assert_eq!(page.proposal_list.len(), 10);
    // the hard maximum caps any requested size
    let page = state.query_proposals(None, Some(50));
    assert_eq!(page.proposal_list.len(), 30);
    let ids: Vec<u64> = page.proposal_list.iter().map(|p| p.proposal_id).collect();
    assert_eq!(ids, (1..=30).collect::<Vec<u64>>());
}

#[test]
fn cast_power_stays_within_electorate() {
    // with per-voter powers drawn from a 1,000,000-power electorate the
    // cast power can never exceed the total
    let mut state = fresh_state(None);
    let id = submit_plain(&mut state);
    state
        .cast_vote(101, &"bob".to_string(), id, ProposalVoteOption::For, 120_000)
        .unwrap();
    state
        .cast_vote(101, &"carol".to_string(), id, ProposalVoteOption::Against, 60_000)
        .unwrap();
    let votes = state.query_proposal_votes(id).unwrap();
    assert!(votes.for_power + votes.against_power <= TOTAL_POWER);
}

#[test]
fn passed_proposal_past_window_is_not_removable() {
    // only a still-active proposal is reclassified to expired by cleanup; a
    // passed one stays passed and is not completed
    let mut state = fresh_state(None);
    let id = passed_proposal(&mut state);
    assert_eq!(
        state.remove_completed_proposal(118, id),
        Err(ContractError::ProposalNotCompleted)
    );
    assert_eq!(state.query_proposal(id).unwrap().status, ProposalStatus::Passed);
}

#[test]
fn new_state_validates_config() {
    let mut config = test_config(None);
    config.whitelisted_links = vec![];
    assert!(matches!(
        GovState::new(config),
        Err(ContractError::WhitelistEmpty)
    ));

    let mut config = test_config(None);
    config.proposal_required_quorum = Ratio { atomics: 2_000_000_000_000_000_000 };
    assert!(matches!(
        GovState::new(config),
        Err(ContractError::InvalidProposalRequiredQuorum)
    ));

    let mut config = test_config(None);
    config.proposal_required_threshold = Ratio { atomics: 1_000_000_000_000_000_001 };
    assert!(matches!(
        GovState::new(config),
        Err(ContractError::InvalidProposalRequiredThreshold)
    ));
}
