//! End-to-end scenarios of the engine: a payment observed on chain,
//! settled, confirmed, claimed and paid out, plus the edge cases of the
//! settle decision.

use finch::domain::{Currency, PaymentStatus, PayoutAction, PayoutStatus};
use finch::eth_processor;
use finch::ethereum;
use finch::hash::H256;
use finch::ledger::Ledger;
use finch::model::{AppStatus, Payment, Store, Timestamp};
use finch::monitor;
use finch::payouter;
use finch::quantity;

const ETH: u128 = 1_000_000_000_000_000_000;
const RECEIVER: &str = "bbbbbbbbbbbbbbbbbbbbbbbbbbbbbbbbbbbbbbbb";

fn empty_ledger() -> Ledger {
    Ledger {
        payments: Vec::new(),
        payouts: Vec::new(),
        btc_transactions: Vec::new(),
        eth_transactions: Vec::new(),
        status: AppStatus { id: 1, eth_block_height: None, btc_block_height: None },
        next_payout_id: 0,
    }
}

fn eth_payment(id: u64, price: u128, expires_at: u64) -> Payment {
    Payment {
        id,
        store_id: 7,
        currency: Currency::Eth,
        address: format!("0x{}", RECEIVER),
        price,
        amount_paid: None,
        status: PaymentStatus::Pending,
        index: 0,
        confirmations_required: 1,
        block_height_required: None,
        transaction_hash: None,
        payout_transaction_hash: None,
        created_at: Timestamp { secs: 1_500_000_000, nanos: 5 },
        expires_at,
    }
}

fn eth_block(number: u64, value: u128) -> ethereum::Block {
    ethereum::Block {
        hash: H256::from_hash([0xdd; 32]),
        number,
        transactions: vec![ethereum::Transaction {
            hash: H256::from_hash([0xcc; 32]),
            to_address: Some(RECEIVER.to_string()),
            value,
        }],
    }
}

fn store_with_payout_address() -> Store {
    Store {
        id: 7,
        owner_id: 1,
        mnemonic: "gown stadium cruel mansion scrap almost school spoil bird cause matrix dawn"
            .to_string(),
        hd_path: "m/44'/60'/0'/0".to_string(),
        eth_payout_addresses: Some(vec![format!("0x{}", "a".repeat(40))]),
        eth_confirmations_required: Some(1),
        active: true,
    }
}

#[test]
fn happy_ethereum_payment() {
    let mut led = empty_ledger();
    led.payments.push(eth_payment(1, ETH, 2_000_000_000));
    let block = eth_block(100, 1_500_000_000_000_000_000);
    let now = 1_500_000_100;

    eth_processor::process_block(&mut led, &block, now);

    assert_eq!(led.payments[0].status, PaymentStatus::Paid);
    assert_eq!(led.payments[0].block_height_required, Some(100));
    assert!(led.payments[0].transaction_hash.is_some());
    assert_eq!(led.status.eth_block_height, Some(100));
    assert_eq!(led.payouts.len(), 1);
    assert_eq!(led.payouts[0].action, PayoutAction::Payout);
    assert_eq!(led.payouts[0].status, PayoutStatus::Pending);
    assert_eq!(led.payouts[0].block_height_required, 100);
    assert_eq!(led.payouts[0].payment_id, 1);
    assert_eq!(led.eth_transactions.len(), 1);

    // The monitor sees the payout once the watermark reaches the
    // required height.
    let early = monitor::find_all_confirmed(&led, Currency::Eth, 99);
    assert_eq!(early.len(), 0);
    let due = monitor::find_all_confirmed(&led, Currency::Eth, 100);
    assert_eq!(due.len(), 1);
    let payout_id = due[0].id;

    assert!(monitor::claim_payout(&mut led, payout_id));
    assert_eq!(led.payouts[0].status, PayoutStatus::Processing);

    // The payouter builds the outbound transaction.
    let store = store_with_payout_address();
    let (tx, path) = payouter::prepare_payout(
        &led.payments[0],
        &store,
        1_500_000_000_000_000_000,
        1_000_000_000,
        7,
    )
    .unwrap();
    assert_eq!(tx.value, 1_499_979_000_000_000_000);
    assert_eq!(tx.gas, 21000);
    assert_eq!(tx.gas_price, 1_000_000_000);
    assert_eq!(tx.nonce, 7);
    assert_eq!(tx.to, format!("0x{}", "a".repeat(40)));
    assert!(tx.data.is_empty());
    assert_eq!(path, "m/44'/60'/0'/0/1500000000/000000005");

    // Broadcast succeeded: the payment completes.
    let broadcast = H256::from_hash([0xee; 32]);
    assert!(led.mark_paid_out(1, broadcast));
    assert_eq!(led.payments[0].status, PaymentStatus::PaidOut);
    assert_eq!(led.payments[0].payout_transaction_hash, Some(broadcast));
    assert!(monitor::finish_payout(&mut led, payout_id, Some(broadcast)));
    assert_eq!(led.payouts[0].status, PayoutStatus::Done);
    assert_eq!(led.payouts[0].transaction_hash, Some(broadcast));
}

#[test]
fn underpayment_schedules_refund() {
    let mut led = empty_ledger();
    led.payments.push(eth_payment(1, ETH, 2_000_000_000));
    let block = eth_block(100, 400_000_000_000_000_000);

    eth_processor::process_block(&mut led, &block, 1_500_000_100);

    assert_eq!(led.payments[0].status, PaymentStatus::InsufficientAmount);
    assert_eq!(led.payouts.len(), 1);
    assert_eq!(led.payouts[0].action, PayoutAction::Refund);
    // A refund row is recorded but never dispatched as a payout.
    let due = monitor::find_all_confirmed(&led, Currency::Eth, 1000);
    assert_eq!(due.len(), 0);
}

#[test]
fn expired_payment_schedules_refund() {
    let t0 = 1_500_000_000;
    let mut led = empty_ledger();
    led.payments.push(eth_payment(1, ETH, t0));
    // Enough value, but observed a minute past expiry.
    let block = eth_block(100, 2 * ETH);

    eth_processor::process_block(&mut led, &block, t0 + 60);

    assert_eq!(led.payments[0].status, PaymentStatus::Expired);
    assert_eq!(led.payouts.len(), 1);
    assert_eq!(led.payouts[0].action, PayoutAction::Refund);
}

#[test]
fn late_arrival_after_terminal_state_refunds() {
    let mut led = empty_ledger();
    let mut p = eth_payment(1, ETH, 2_000_000_000);
    p.status = PaymentStatus::Expired;
    led.payments.push(p);
    let block = eth_block(101, 2 * ETH);

    eth_processor::process_block(&mut led, &block, 1_500_000_100);

    // No backward transition: the status stays terminal.
    assert_eq!(led.payments[0].status, PaymentStatus::Expired);
    assert_eq!(led.payouts.len(), 1);
    assert_eq!(led.payouts[0].action, PayoutAction::Refund);
}

#[test]
fn confirmation_equation_with_depth() {
    let mut led = empty_ledger();
    let mut p = eth_payment(1, ETH, 2_000_000_000);
    p.confirmations_required = 3;
    led.payments.push(p);
    let block = eth_block(100, 2 * ETH);

    eth_processor::process_block(&mut led, &block, 1_500_000_100);

    // block_height_required = 100 + 3 - 1.
    assert_eq!(led.payments[0].block_height_required, Some(102));
    assert_eq!(led.payouts[0].block_height_required, 102);
}

#[test]
fn watermark_advances_and_never_rewinds() {
    let mut led = empty_ledger();
    eth_processor::process_block(&mut led, &eth_block(100, ETH), 0);
    assert_eq!(led.status.eth_block_height, Some(100));
    eth_processor::process_block(&mut led, &eth_block(101, ETH), 0);
    assert_eq!(led.status.eth_block_height, Some(101));
    // The other chain's watermark is untouched.
    assert_eq!(led.status.btc_block_height, None);
    assert_eq!(led.status.block_height(Currency::Eth), Some(101));
    assert_eq!(led.status.block_height(Currency::Btc), None);
}

#[test]
fn payout_dispatched_exactly_once() {
    let mut led = empty_ledger();
    led.payments.push(eth_payment(1, ETH, 2_000_000_000));
    eth_processor::process_block(&mut led, &eth_block(100, 2 * ETH), 1_500_000_100);
    let payout_id = led.payouts[0].id;

    // Two monitors race on the same row: only the first claim wins.
    assert!(monitor::claim_payout(&mut led, payout_id));
    assert!(!monitor::claim_payout(&mut led, payout_id));
    assert_eq!(led.payouts[0].status, PayoutStatus::Processing);
}

#[test]
fn candidate_extraction_is_repeatable() {
    let block = eth_block(100, ETH);
    let first = eth_processor::extract_candidates(&block.transactions);
    let second = eth_processor::extract_candidates(&block.transactions);
    assert_eq!(first, second);
    assert_eq!(first, vec![format!("0x{}", RECEIVER)]);
}

#[test]
fn transaction_recorded_once_per_hash() {
    let mut led = empty_ledger();
    led.payments.push(eth_payment(1, ETH, 2_000_000_000));
    // Two blocks carrying the same transaction body: the record stays
    // single.
    eth_processor::process_block(&mut led, &eth_block(100, 2 * ETH), 1_500_000_100);
    eth_processor::process_block(&mut led, &eth_block(101, 2 * ETH), 1_500_000_100);
    assert_eq!(led.eth_transactions.len(), 1);
}

#[test]
fn pending_transactions_update_status_only() {
    let mut led = empty_ledger();
    led.payments.push(eth_payment(1, ETH, 2_000_000_000));
    let txs = vec![ethereum::Transaction {
        hash: H256::from_hash([0xcc; 32]),
        to_address: Some(RECEIVER.to_string()),
        value: 2 * ETH,
    }];

    eth_processor::process_pending_transactions(&mut led, &txs);

    assert_eq!(led.payments[0].status, PaymentStatus::Paid);
    assert_eq!(led.payments[0].amount_paid, Some(2 * ETH));
    // Pre-confirmation visibility only: no payout, no confirmation
    // target, no watermark.
    assert_eq!(led.payouts.len(), 0);
    assert_eq!(led.payments[0].block_height_required, None);
    assert_eq!(led.status.eth_block_height, None);
}

#[test]
fn payout_value_equation() {
    assert_eq!(
        payouter::payout_value(1_500_000_000_000_000_000, 1_000_000_000),
        Some(1_499_979_000_000_000_000)
    );
    // Gas eats the whole amount: the payout is not attempted.
    assert_eq!(payouter::payout_value(21_000_000_000_000, 1_000_000_000), None);
    assert_eq!(payouter::payout_value(0, 1_000_000_000), None);
}

#[test]
fn payout_without_address_is_rejected() {
    let mut store = store_with_payout_address();
    store.eth_payout_addresses = None;
    let payment = eth_payment(1, ETH, 2_000_000_000);
    let r = payouter::prepare_payout(&payment, &store, 2 * ETH, 1_000_000_000, 0);
    assert!(matches!(r, Err(payouter::PayouterError::NoPayoutAddress)));

    let store2 = store_with_payout_address();
    let r2 = payouter::prepare_payout(&payment, &store2, 21_000_000_000_000, 1_000_000_000, 0);
    assert!(matches!(r2, Err(payouter::PayouterError::ValueTooLow)));
}

#[test]
fn store_acceptance_rules() {
    let store = store_with_payout_address();
    assert!(store.can_accept(&Currency::Eth));
    assert!(!store.can_accept(&Currency::Btc));
    let mut bare = store_with_payout_address();
    bare.eth_confirmations_required = None;
    assert!(!bare.can_accept(&Currency::Eth));
}

#[test]
fn decimal_renderings_for_derivation_paths() {
    assert_eq!(quantity::dec_string(0), "0");
    assert_eq!(quantity::dec_string(1_234_567_890), "1234567890");
    assert_eq!(quantity::dec_string_padded(5, 9), "000000005");
    assert_eq!(quantity::dec_string_padded(123_456_789, 9), "123456789");
    let path = payouter::derivation_path(
        "m/44'/60'/0'/0",
        &Timestamp { secs: 1_500_000_000, nanos: 999_999_999 },
    );
    assert_eq!(path, "m/44'/60'/0'/0/1500000000/999999999");
}

#[test]
fn finish_payout_records_failure() {
    let mut led = empty_ledger();
    led.payments.push(eth_payment(1, ETH, 2_000_000_000));
    eth_processor::process_block(&mut led, &eth_block(100, 2 * ETH), 1_500_000_100);
    let payout_id = led.payouts[0].id;
    assert!(monitor::claim_payout(&mut led, payout_id));
    assert!(monitor::finish_payout(&mut led, payout_id, None));
    assert_eq!(led.payouts[0].status, PayoutStatus::Failed);
    assert_eq!(led.payouts[0].transaction_hash, None);
    // The payment stays Paid, not PaidOut: surfaced as an operational
    // fault, never corrupted state.
    assert_eq!(led.payments[0].status, PaymentStatus::Paid);
}
