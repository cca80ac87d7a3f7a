use omni_transaction::evm::EVMTransaction;
use sha3::{Digest, Keccak256};

use rebalancer::cache::TriggerOutcome;
use rebalancer::errors::RebalanceError;
use rebalancer::flow::{Flow, PayloadType};
use rebalancer::types::{
    AaveConfig, AgentActionType, CCTPConfig, ChainConfig, Config, RebalancerConfig,
    SignatureResponse, Worker,
};
use rebalancer::Contract;

const OWNER: &str = "owner.testnet";
const WORKER: &str = "worker.testnet";

fn config_with_vault(chain_id: u64, vault: &str) -> ChainConfig {
    ChainConfig {
        chain_id,
        config: Config {
            rebalancer: RebalancerConfig {
                vault_address: vault.to_string(),
            },
            cctp: CCTPConfig {
                messenger_address: "0x8FE6B999Dc680CcFDD5Bf7EB0974218be2542DAA".to_string(),
                transmitter_address: "0xe737e5cebeeba77efe34d4aa090756590b1ce275".to_string(),
                usdc_address: "0x75faf114eafb1BDbe2F0316DF893fd58CE46AA4d".to_string(),
            },
            aave: AaveConfig {
                asset: "0x75faf114eafb1BDbe2F0316DF893fd58CE46AA4d".to_string(),
                lending_pool_address: "0xBfC91D59fdAA134A4ED45f7B584cAf96D7792Eff".to_string(),
                on_behalf_of: "0x20f2747bbc52453ac0774b5b2fe0e28dc6637f30".to_string(),
                referral_code: 0,
            },
        },
    }
}

fn new_contract() -> Contract {
    Contract::init(
        OWNER.to_string(),
        1,
        vec![
            config_with_vault(1, "0xE168d95f8d1B8EC167A63c8E696076EC8EE95337"),
            config_with_vault(2, "0xE168d95f8d1B8EC167A63c8E696076EC8EE95337"),
        ],
    )
}

fn with_worker(c: &mut Contract) -> String {
    let owner = OWNER.to_string();
    c.approve_codehash(&owner, "approved-hash".to_string()).unwrap();
    c.register_worker(
        &owner,
        WORKER.to_string(),
        Worker {
            codehash: "approved-hash".to_string(),
        },
    )
    .unwrap();
    WORKER.to_string()
}

fn sample_tx() -> EVMTransaction {
    EVMTransaction {
        chain_id: 1,
        nonce: 0,
        to: None,
        value: 0,
        input: vec![],
        gas_limit: 21_000,
        max_fee_per_gas: 1_000_000_000,
        max_priority_fee_per_gas: 1_000_000_000,
        access_list: vec![],
    }
}

fn good_response() -> SignatureResponse {
    SignatureResponse {
        big_r_affine_point: format!("02{}", "ab".repeat(32)),
        s_scalar: "cd".repeat(32),
        recovery_id: 1,
    }
}

fn start_default(c: &mut Contract, worker: &String, flow: Flow) -> u64 {
    c.start_rebalance(worker, flow, 1, 2, 1_000_000_000, 5_000_000_000, 1_700_000_000_000)
        .unwrap()
}

#[test]
fn test_init() {
    let c = new_contract();
    assert_eq!(c.get_source_chain(), 1);
    assert_eq!(c.get_supported_chains(), vec![1, 2]);
    assert!(c.get_active_session().is_err());
    assert!(c.get_latest_logs(10).is_empty());
    assert!(c.get_worker(&WORKER.to_string()).is_err());
    assert!(c.get_chain_config(&1).is_ok());
    assert!(c.get_chain_config(&2).is_ok());
    assert_eq!(c.get_all_configs().len(), 2);
    assert_eq!(c.get_pending_step(), None);
}

#[test]
fn test_start_rebalance() {
    let mut c = new_contract();
    let worker = with_worker(&mut c);
    let flow = Flow::RebalancerToAave;
    let amount: u128 = 1_000_000_000;
    let balance: u128 = 5_000_000_000;
    let ts: u64 = 1_700_000_000_000;
    let nonce = c
        .start_rebalance(&worker, flow, 1, 2, amount, balance, ts)
        .unwrap();
    assert_eq!(nonce, 0);

    let session = c.get_active_session().unwrap();
    assert_eq!(session.flow, flow);
    assert_eq!(session.nonce, 0);
    assert_eq!(session.started_at, ts);

    let log = c.get_activity_log().unwrap();
    assert_eq!(log.activity_type, AgentActionType::Rebalance);
    assert_eq!(log.source_chain, 1);
    assert_eq!(log.destination_chain, 2);
    assert!(log.transactions.is_empty());
    assert_eq!(log.timestamp, ts);
    assert_eq!(log.nonce, 0);
    assert_eq!(log.amount, amount);
    assert_eq!(log.usdc_agent_balance_before, balance);

    assert_eq!(c.get_latest_logs(10).len(), 1);
}

#[test]
fn start_while_active_is_session_conflict() {
    let mut c = new_contract();
    let worker = with_worker(&mut c);
    start_default(&mut c, &worker, Flow::RebalancerToAave);
    let second = c.start_rebalance(
        &worker,
        Flow::AaveToAave,
        1,
        2,
        5,
        5,
        1_700_000_000_001,
    );
    assert_eq!(second, Err(RebalanceError::SessionConflict));
}

#[test]
fn start_requires_approved_worker() {
    let mut c = new_contract();
    let stranger = "stranger.testnet".to_string();
    let r = c.start_rebalance(
        &stranger,
        Flow::RebalancerToAave,
        1,
        2,
        1,
        1,
        1_700_000_000_000,
    );
    assert_eq!(r, Err(RebalanceError::AccessDenied));

    let owner = OWNER.to_string();
    c.register_worker(
        &owner,
        stranger.clone(),
        Worker {
            codehash: "never-approved".to_string(),
        },
    )
    .unwrap();
    let r = c.start_rebalance(
        &stranger,
        Flow::RebalancerToAave,
        1,
        2,
        1,
        1,
        1_700_000_000_000,
    );
    assert_eq!(r, Err(RebalanceError::AccessDenied));
}

#[test]
fn start_rejects_unsupported_chains() {
    let mut c = new_contract();
    let worker = with_worker(&mut c);
    let r = c.start_rebalance(&worker, Flow::RebalancerToAave, 99, 2, 1, 1, 0);
    assert_eq!(r, Err(RebalanceError::UnsupportedChain));
    let r = c.start_rebalance(&worker, Flow::RebalancerToAave, 1, 99, 1, 1, 0);
    assert_eq!(r, Err(RebalanceError::UnsupportedChain));
}

#[test]
fn operations_without_session_fail() {
    let mut c = new_contract();
    assert!(matches!(
        c.trigger_signature(PayloadType::CCTPBurn, &vec![1, 2, 3]),
        Err(RebalanceError::NoActiveSession)
    ));
    assert_eq!(
        c.assert_step_is_next(PayloadType::CCTPBurn),
        Err(RebalanceError::NoActiveSession)
    );
    assert!(c.get_activity_log().is_err());
    assert_eq!(c.clear_active_session(), Err(RebalanceError::NoActiveSession));
    assert_eq!(c.get_flow_status(), vec![]);
    assert_eq!(c.get_active_session_info(), None);
}

#[test]
fn scenario_vault_to_lending() {
    let mut c = new_contract();
    let worker = with_worker(&mut c);
    let nonce = start_default(&mut c, &worker, Flow::RebalancerToAave);
    assert_eq!(nonce, 0);

    let status = c.get_flow_status();
    assert_eq!(status.len(), 5);
    assert!(status.iter().all(|(_, signed)| !signed));
    assert_eq!(status[0].0, PayloadType::RebalancerWithdrawToAllocate);

    let (tx, outcome) = c
        .build_and_sign_withdraw_for_crosschain_allocation_tx(
            &worker,
            &sample_tx(),
            vec![0xAA, 0xBB],
        )
        .unwrap();
    let digest = match outcome {
        TriggerOutcome::Issued(d) => d,
        _ => panic!("expected a fresh signing request"),
    };
    assert_eq!(digest.len(), 32);

    // Step 2 before step 1 resolves: rejected.
    let burn = c.build_and_sign_cctp_burn_tx(&worker, &sample_tx(), vec![0x01]);
    assert!(matches!(burn, Err(RebalanceError::OutOfOrderStep)));

    // The signing service answers; the signed bytes land in cache and log.
    let step1 = PayloadType::RebalancerWithdrawToAllocate.code();
    let signed = c
        .sign_generic_callback(Some(good_response()), 0, step1, &tx)
        .unwrap();
    assert!(!signed.is_empty());
    assert_eq!(c.get_signature(0, step1), Some(signed.clone()));
    assert_eq!(c.get_signed_transactions(0), vec![signed]);

    let status = c.get_flow_status();
    assert!(status[0].1);
    assert_eq!(c.get_pending_step(), Some(PayloadType::CCTPBurn));
    assert_eq!(
        c.get_active_session_info(),
        Some((0, Flow::RebalancerToAave, Some(PayloadType::CCTPBurn)))
    );
}

#[test]
fn identical_retrigger_observes_pending_and_issues_nothing() {
    let mut c = new_contract();
    let worker = with_worker(&mut c);
    start_default(&mut c, &worker, Flow::RebalancerToAave);

    let (tx, first) = c
        .build_and_sign_withdraw_for_crosschain_allocation_tx(&worker, &sample_tx(), vec![9])
        .unwrap();
    assert!(matches!(first, TriggerOutcome::Issued(_)));

    let (_tx, second) = c
        .build_and_sign_withdraw_for_crosschain_allocation_tx(&worker, &sample_tx(), vec![9])
        .unwrap();
    assert!(matches!(second, TriggerOutcome::AlreadyPending));

    // After resolution an identical replay is answered from the cache.
    let step1 = PayloadType::RebalancerWithdrawToAllocate.code();
    let signed = c
        .sign_generic_callback(Some(good_response()), 0, step1, &tx)
        .unwrap();
    let (_tx, third) = c
        .build_and_sign_withdraw_for_crosschain_allocation_tx(&worker, &sample_tx(), vec![9])
        .unwrap();
    match third {
        TriggerOutcome::Cached(bytes) => assert_eq!(bytes, signed),
        _ => panic!("expected the cached signature"),
    }
    // Still exactly one signed transaction was produced.
    assert_eq!(c.get_signed_transactions(0).len(), 1);
}

#[test]
fn divergent_retrigger_is_rejected() {
    let mut c = new_contract();
    let worker = with_worker(&mut c);
    start_default(&mut c, &worker, Flow::RebalancerToAave);

    let (_tx, first) = c
        .build_and_sign_withdraw_for_crosschain_allocation_tx(&worker, &sample_tx(), vec![1])
        .unwrap();
    assert!(matches!(first, TriggerOutcome::Issued(_)));

    let second =
        c.build_and_sign_withdraw_for_crosschain_allocation_tx(&worker, &sample_tx(), vec![2]);
    assert!(matches!(second, Err(RebalanceError::ContentDivergence)));
}

#[test]
fn completed_flow_reports_flow_complete() {
    let mut c = new_contract();
    let worker = with_worker(&mut c);
    start_default(&mut c, &worker, Flow::RebalancerToAave);

    for step in Flow::RebalancerToAave.sequence() {
        let mut tx = sample_tx();
        tx.nonce = step.code() as u64;
        let payload = tx.build_for_signing();
        match c.trigger_signature(step, &payload).unwrap() {
            TriggerOutcome::Issued(_) => {},
            _ => panic!("expected a fresh signing request"),
        }
        c.sign_generic_callback(Some(good_response()), 0, step.code(), &tx)
            .unwrap();
    }

    assert_eq!(c.get_pending_step(), None);
    assert_eq!(
        c.assert_step_is_next(PayloadType::CompleteRebalance),
        Err(RebalanceError::FlowComplete)
    );
    assert_eq!(
        c.get_active_session_info(),
        Some((0, Flow::RebalancerToAave, None))
    );
    assert_eq!(c.get_signed_transactions(0).len(), 5);
    let status = c.get_flow_status();
    assert!(status.iter().all(|(_, signed)| *signed));
}

#[test]
fn nonces_increase_and_are_never_reused() {
    let mut c = new_contract();
    let worker = with_worker(&mut c);
    let n0 = start_default(&mut c, &worker, Flow::RebalancerToAave);
    c.clear_active_session().unwrap();
    let n1 = start_default(&mut c, &worker, Flow::AaveToAave);
    c.clear_active_session().unwrap();
    let n2 = start_default(&mut c, &worker, Flow::AaveToRebalancer);
    assert_eq!((n0, n1, n2), (0, 1, 2));
    assert!(n0 < n1 && n1 < n2);
    assert_eq!(c.get_latest_logs(10).len(), 3);
    // Newest first.
    assert_eq!(c.get_latest_logs(2)[0].nonce, 2);
    assert_eq!(c.get_latest_logs(2)[1].nonce, 1);
}

#[test]
fn chain_resolution_covers_every_flow_step() {
    for flow in [Flow::AaveToAave, Flow::RebalancerToAave, Flow::AaveToRebalancer] {
        let mut c = new_contract();
        let worker = with_worker(&mut c);
        start_default(&mut c, &worker, flow);
        for step in flow.sequence() {
            let chain = c
                .get_chain_id_from_the_step_and_current_session(step)
                .unwrap();
            assert!(chain == 1 || chain == 2);
        }
        // The first two steps leave the source chain, the rest land on the
        // destination chain.
        let seq = flow.sequence();
        assert_eq!(
            c.get_chain_id_from_the_step_and_current_session(seq[0]),
            Ok(1)
        );
        assert_eq!(
            c.get_chain_id_from_the_step_and_current_session(seq[1]),
            Ok(1)
        );
        assert_eq!(
            c.get_chain_id_from_the_step_and_current_session(seq[2]),
            Ok(2)
        );
        assert_eq!(
            c.get_chain_id_from_the_step_and_current_session(seq[3]),
            Ok(2)
        );
        assert_eq!(
            c.get_chain_id_from_the_step_and_current_session(seq[4]),
            Ok(2)
        );
    }
}

#[test]
fn off_table_pairs_are_invalid_combinations() {
    let mut c = new_contract();
    let worker = with_worker(&mut c);
    start_default(&mut c, &worker, Flow::AaveToAave);
    assert_eq!(
        c.get_chain_id_from_the_step_and_current_session(PayloadType::RebalancerDeposit),
        Err(RebalanceError::InvalidFlowStepCombination)
    );
    assert_eq!(
        c.get_chain_id_from_the_step_and_current_session(
            PayloadType::RebalancerUpdateCrossChainBalance
        ),
        Err(RebalanceError::InvalidFlowStepCombination)
    );
}

#[test]
fn signing_failure_clears_the_slot_for_retry() {
    let mut c = new_contract();
    let worker = with_worker(&mut c);
    start_default(&mut c, &worker, Flow::RebalancerToAave);
    let step1 = PayloadType::RebalancerWithdrawToAllocate;

    let (tx, first) = c
        .build_and_sign_withdraw_for_crosschain_allocation_tx(&worker, &sample_tx(), vec![7])
        .unwrap();
    assert!(matches!(first, TriggerOutcome::Issued(_)));

    // The service fails; the identical request becomes retryable.
    let failed = c.sign_generic_callback(None, 0, step1.code(), &tx);
    assert_eq!(failed, Err(RebalanceError::SigningFailed));

    let (tx, retried) = c
        .build_and_sign_withdraw_for_crosschain_allocation_tx(&worker, &sample_tx(), vec![7])
        .unwrap();
    assert!(matches!(retried, TriggerOutcome::Issued(_)));

    // A malformed response also fails and stays retryable.
    let malformed = SignatureResponse {
        big_r_affine_point: "not-hex".to_string(),
        s_scalar: "cd".repeat(32),
        recovery_id: 1,
    };
    assert_eq!(
        c.sign_generic_callback(Some(malformed), 0, step1.code(), &tx),
        Err(RebalanceError::SigningFailed)
    );
    let (tx, retried) = c
        .build_and_sign_withdraw_for_crosschain_allocation_tx(&worker, &sample_tx(), vec![7])
        .unwrap();
    assert!(matches!(retried, TriggerOutcome::Issued(_)));

    // Finally it succeeds, and a late duplicate resolution is a no-op.
    let signed = c
        .sign_generic_callback(Some(good_response()), 0, step1.code(), &tx)
        .unwrap();
    let again = c
        .sign_generic_callback(Some(good_response()), 0, step1.code(), &tx)
        .unwrap();
    assert_eq!(signed, again);
    assert_eq!(c.get_signed_transactions(0).len(), 1);
}

#[test]
fn malformed_configured_address_is_surfaced() {
    let mut c = Contract::init(
        OWNER.to_string(),
        1,
        vec![
            config_with_vault(1, "0xE168d95f8d1B8EC167A63c8E696076EC8EE95337"),
            config_with_vault(2, ""),
        ],
    );
    let worker = with_worker(&mut c);
    start_default(&mut c, &worker, Flow::AaveToRebalancer);
    // The deposit step resolves to the destination chain, whose vault
    // address is empty.
    let r = c.build_and_sign_return_funds_tx(&worker, &sample_tx(), vec![1]);
    assert!(matches!(r, Err(RebalanceError::MalformedAddress)));
}

#[test]
fn issued_digest_is_the_keccak_of_the_payload() {
    let mut c = new_contract();
    let worker = with_worker(&mut c);
    start_default(&mut c, &worker, Flow::RebalancerToAave);
    let payload = vec![1u8, 2, 3, 4];
    match c
        .trigger_signature(PayloadType::RebalancerWithdrawToAllocate, &payload)
        .unwrap()
    {
        TriggerOutcome::Issued(digest) => {
            assert_eq!(digest, Keccak256::digest(&payload).to_vec());
        },
        _ => panic!("expected a fresh signing request"),
    }
}

#[test]
fn resolution_with_other_content_is_rejected() {
    let mut c = new_contract();
    let worker = with_worker(&mut c);
    start_default(&mut c, &worker, Flow::RebalancerToAave);
    let step1 = PayloadType::RebalancerWithdrawToAllocate;

    let (tx, outcome) = c
        .build_and_sign_withdraw_for_crosschain_allocation_tx(&worker, &sample_tx(), vec![3])
        .unwrap();
    assert!(matches!(outcome, TriggerOutcome::Issued(_)));

    // A callback carrying a transaction other than the triggered one may
    // not commit a signature into the slot.
    let mut other = sample_tx();
    other.nonce = 99;
    assert_eq!(
        c.sign_generic_callback(Some(good_response()), 0, step1.code(), &other),
        Err(RebalanceError::ContentDivergence)
    );
    assert_eq!(c.get_signature(0, step1.code()), None);

    // The right transaction still resolves the slot.
    let signed = c
        .sign_generic_callback(Some(good_response()), 0, step1.code(), &tx)
        .unwrap();
    assert_eq!(c.get_signature(0, step1.code()), Some(signed));
}

#[test]
fn get_signature_misses_unknown_slots() {
    let c = new_contract();
    assert_eq!(c.get_signature(0, 4), None);
    assert_eq!(c.get_signature(7, 0), None);
}

#[test]
fn session_guard_reports_conflicts() {
    let mut c = new_contract();
    assert!(c.assert_no_active_session().is_ok());
    let worker = with_worker(&mut c);
    start_default(&mut c, &worker, Flow::AaveToAave);
    assert_eq!(
        c.assert_no_active_session(),
        Err(RebalanceError::SessionConflict)
    );
    assert_eq!(
        RebalanceError::SessionConflict.message(),
        "Another action in progress"
    );
    assert_eq!(
        RebalanceError::OutOfOrderStep.message(),
        "Wrong step for current position"
    );
}

#[test]
fn aave_supply_test_() {}

#[test]
fn test_build_and_sign_cctp_burn_tx() {}

#[test]
fn cctp_mint_test_() {}

#[test]
fn return_funds_test_() {}

#[test]
fn withdraw_for_crosschain_allocation_test_() {}
