//! The polling state machine: backoff on empty answers, bounded retries,
//! bootstrap catch-up, the mempool diff, and the settle path for Bitcoin
//! blocks.

use finch::bitcoin;
use finch::btc_processor;
use finch::domain::{Currency, Network, PaymentStatus, PayoutAction};
use finch::hash::H256;
use finch::ledger::Ledger;
use finch::model::{AppStatus, AppStatusPayload, Payment, Timestamp};
use finch::poller::{
    block_fetch_plan, bootstrap_plan, check_retry_budget, mempool_new_entries, poll_step,
    FetchOutcome, PollState, PollerError, RETRY_LIMIT,
};

fn empty_ledger() -> Ledger {
    Ledger {
        payments: Vec::new(),
        payouts: Vec::new(),
        btc_transactions: Vec::new(),
        eth_transactions: Vec::new(),
        status: AppStatus { id: 1, eth_block_height: None, btc_block_height: None },
        next_payout_id: 0,
    }
}

#[test]
fn empty_responses_do_not_spend_retries() {
    // Polling height 100 answers empty four times, then delivers.
    let mut state = PollState { block_number: 100, retry_count: 0 };
    for _ in 0..4 {
        assert!(check_retry_budget(&state).is_ok());
        state = poll_step(&state, FetchOutcome::Empty).unwrap();
        assert_eq!(state.block_number, 100);
        assert_eq!(state.retry_count, 0);
    }
    state = poll_step(&state, FetchOutcome::Delivered).unwrap();
    assert_eq!(state.block_number, 101);
    assert_eq!(state.retry_count, 0);
}

#[test]
fn transport_errors_exhaust_the_retry_budget() {
    // Ten transport errors in a row end the loop with the carried count;
    // the height cursor never moved.
    let mut state = PollState { block_number: 100, retry_count: 0 };
    for _ in 0..10 {
        assert!(check_retry_budget(&state).is_ok());
        state = poll_step(&state, FetchOutcome::RpcError).unwrap();
        assert_eq!(state.block_number, 100);
    }
    assert_eq!(state.retry_count, RETRY_LIMIT);
    assert_eq!(check_retry_budget(&state), Err(PollerError::RetryLimitExceeded(10)));
}

#[test]
fn delivery_resets_the_retry_count() {
    let state = PollState { block_number: 100, retry_count: 7 };
    let next = poll_step(&state, FetchOutcome::Delivered).unwrap();
    assert_eq!(next, PollState { block_number: 101, retry_count: 0 });
    let fatal = poll_step(&state, FetchOutcome::Fatal);
    assert_eq!(fatal, Err(PollerError::NonRecoverable));
}

#[test]
fn bootstrap_replays_missed_blocks_in_order() {
    // Watermark 90, tip 95: blocks 91 through 95 replay in order, then
    // steady state begins at 96.
    let plan = bootstrap_plan(Some(90), 95, false);
    assert_eq!(plan.replay, vec![91, 92, 93, 94, 95]);
    assert_eq!(plan.resume_from, 96);
}

#[test]
fn bootstrap_skips_when_told_or_uninitialized() {
    let skipped = bootstrap_plan(Some(90), 95, true);
    assert_eq!(skipped.replay.len(), 0);
    assert_eq!(skipped.resume_from, 96);
    let cold = bootstrap_plan(None, 95, false);
    assert_eq!(cold.replay.len(), 0);
    assert_eq!(cold.resume_from, 96);
    let caught_up = bootstrap_plan(Some(95), 95, false);
    assert_eq!(caught_up.replay.len(), 0);
}

#[test]
fn block_fetch_plan_skips_the_coinbase() {
    let coinbase = H256::from_hash([1; 32]);
    let a = H256::from_hash([2; 32]);
    let b = H256::from_hash([3; 32]);
    // The bodies fetched for a block are those of tx_hashes[1..], in
    // block order; the coinbase at index 0 is never fetched.
    assert_eq!(block_fetch_plan(&vec![coinbase, a, b]), vec![a, b]);
    assert_eq!(block_fetch_plan(&vec![coinbase]), Vec::new());
    assert_eq!(block_fetch_plan(&Vec::new()), Vec::new());
}

#[test]
fn mempool_diff_keeps_only_new_entries() {
    let a = H256::from_hash([1; 32]);
    let b = H256::from_hash([2; 32]);
    let c = H256::from_hash([3; 32]);
    let current = vec![a, b, c];
    let previous = vec![b];
    let new = mempool_new_entries(&current, &previous);
    assert_eq!(new, vec![a, c]);
    let none_new = mempool_new_entries(&previous, &current);
    assert_eq!(none_new.len(), 0);
}

#[test]
fn network_names_parse() {
    assert_eq!(Network::from_name("mainnet"), Ok(Network::MainNet));
    assert_eq!(Network::from_name("testnet"), Ok(Network::TestNet));
    assert_eq!(
        Network::from_name("regtest"),
        Err("Invalid value for bitcoin network.".to_string())
    );
}

#[test]
fn watermark_payload_applies_partially() {
    let status = AppStatus { id: 1, eth_block_height: Some(5), btc_block_height: None };
    let payload = AppStatusPayload {
        id: 1,
        eth_block_height: None,
        btc_block_height: Some(Some(9)),
    };
    let updated = status.apply(&payload);
    assert_eq!(updated.eth_block_height, Some(5));
    assert_eq!(updated.btc_block_height, Some(9));
}

fn btc_payment(price_sats: u128) -> Payment {
    Payment {
        id: 1,
        store_id: 7,
        currency: Currency::Btc,
        address: "mfWxJ45yp2SFn7UciZyNpvDKrzbhyfKrY8".to_string(),
        price: price_sats,
        amount_paid: None,
        status: PaymentStatus::Pending,
        index: 0,
        confirmations_required: 2,
        block_height_required: None,
        transaction_hash: None,
        payout_transaction_hash: None,
        created_at: Timestamp { secs: 1_500_000_000, nanos: 0 },
        expires_at: 2_000_000_000,
    }
}

fn btc_output(value_sats: u64, addresses: Option<Vec<String>>) -> bitcoin::SignedTransactionOutput {
    bitcoin::SignedTransactionOutput {
        value: value_sats,
        n: 0,
        script: bitcoin::TransactionOutputScript {
            assembly: String::new(),
            hex: String::new(),
            req_sigs: Some(1),
            script_type: bitcoin::ScriptType::PubKeyHash,
            addresses,
        },
    }
}

fn btc_block(height: u64, outputs: Vec<bitcoin::SignedTransactionOutput>) -> bitcoin::Block {
    let tx = bitcoin::Transaction {
        txid: H256::from_hash([0x11; 32]),
        hex: String::new(),
        hash: H256::from_hash([0x12; 32]),
        size: 200,
        vsize: 200,
        version: 2,
        locktime: 0,
        vin: Vec::new(),
        vout: outputs,
        blockhash: H256::from_hash([0x13; 32]),
        confirmations: 1,
        time: 0,
        blocktime: 0,
    };
    bitcoin::Block {
        hash: H256::from_hash([0x13; 32]),
        height,
        // The coinbase hash stands first and is never fetched.
        tx_hashes: vec![H256::from_hash([0x10; 32]), tx.txid],
        transactions: vec![tx],
    }
}

#[test]
fn bitcoin_block_settles_payment_in_satoshi() {
    let mut led = empty_ledger();
    led.payments.push(btc_payment(100_000_000));
    let paying = btc_output(
        150_000_000,
        Some(vec!["mfWxJ45yp2SFn7UciZyNpvDKrzbhyfKrY8".to_string()]),
    );
    let block = btc_block(100, vec![paying]);

    btc_processor::process_block(&mut led, &block, 1_500_000_100);

    assert_eq!(led.payments[0].status, PaymentStatus::Paid);
    // block_height_required = 100 + 2 - 1.
    assert_eq!(led.payments[0].block_height_required, Some(101));
    assert_eq!(led.payouts.len(), 1);
    assert_eq!(led.payouts[0].action, PayoutAction::Payout);
    assert_eq!(led.status.btc_block_height, Some(100));
    assert_eq!(led.btc_transactions.len(), 1);
}

#[test]
fn bitcoin_output_without_addresses_is_no_candidate() {
    let mut led = empty_ledger();
    led.payments.push(btc_payment(100_000_000));
    // A null-data output and an empty decoded list name no candidate.
    let block = btc_block(
        100,
        vec![btc_output(150_000_000, None), btc_output(150_000_000, Some(Vec::new()))],
    );

    btc_processor::process_block(&mut led, &block, 1_500_000_100);

    assert_eq!(led.payments[0].status, PaymentStatus::Pending);
    assert_eq!(led.payouts.len(), 0);
    assert_eq!(led.btc_transactions.len(), 0);
}

#[test]
fn bitcoin_first_matching_output_wins() {
    let mut led = empty_ledger();
    led.payments.push(btc_payment(100_000_000));
    // Two outputs pay the same address: the first decides the amount.
    let low = btc_output(
        40_000_000,
        Some(vec!["mfWxJ45yp2SFn7UciZyNpvDKrzbhyfKrY8".to_string()]),
    );
    let high = btc_output(
        150_000_000,
        Some(vec!["mfWxJ45yp2SFn7UciZyNpvDKrzbhyfKrY8".to_string()]),
    );
    let block = btc_block(100, vec![low, high]);

    btc_processor::process_block(&mut led, &block, 1_500_000_100);

    assert_eq!(led.payments[0].status, PaymentStatus::InsufficientAmount);
    assert_eq!(led.payouts[0].action, PayoutAction::Refund);
}

#[test]
fn bitcoin_mempool_updates_status_only() {
    let mut led = empty_ledger();
    led.payments.push(btc_payment(100_000_000));
    let paying = btc_output(
        40_000_000,
        Some(vec!["mfWxJ45yp2SFn7UciZyNpvDKrzbhyfKrY8".to_string()]),
    );
    let block = btc_block(0, vec![paying]);

    btc_processor::process_mempool_transactions(&mut led, &block.transactions);

    assert_eq!(led.payments[0].status, PaymentStatus::InsufficientAmount);
    assert_eq!(led.payments[0].amount_paid, Some(40_000_000));
    // Pre-confirmation visibility only: no payout, no confirmation
    // target, no watermark.
    assert_eq!(led.payouts.len(), 0);
    assert_eq!(led.payments[0].block_height_required, None);
    assert_eq!(led.status.btc_block_height, None);
}

#[test]
fn bitcoin_candidates_come_from_first_addresses() {
    let outputs = vec![
        btc_output(1, Some(vec!["alpha".to_string(), "beta".to_string()])),
        btc_output(2, None),
        btc_output(3, Some(vec!["gamma".to_string()])),
    ];
    let block = btc_block(100, outputs);
    let candidates = btc_processor::extract_output_candidates(&block.transactions[0]);
    assert_eq!(candidates, vec!["alpha".to_string(), "gamma".to_string()]);
}
