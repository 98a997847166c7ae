//! Applies one Ethereum block (or a batch of pending transactions) to
//! the ledger: candidate extraction, payment matching, settlement, and
//! the watermark advance.

use vstd::prelude::*;

use crate::domain::{Currency, PaymentStatus};
use crate::ethereum;
use crate::ledger::{
    spec_payout_draft, spec_settle_action, spec_settle_payment, spec_watermark_update, Ledger,
};
use crate::model::{Payment, Payout};

verus! {

/// The candidate form of a recipient address: `0x` before the node's
/// bare hex.
pub open spec fn spec_eth_candidate(to: Seq<char>) -> Seq<char> {
    "0x"@ + to
}

/// Whether one transaction pays the given candidate address.
pub open spec fn spec_tx_matches(tx: ethereum::Transaction, addr: Seq<char>) -> bool {
    match tx.to_address {
        Some(t) => addr == spec_eth_candidate(t@),
        None => false,
    }
}

/// Index of the first transaction at or after `from` that pays `addr`.
pub open spec fn spec_first_match(
    txs: Seq<ethereum::Transaction>,
    addr: Seq<char>,
    from: int,
) -> Option<int>
    decreases txs.len() - from,
{
    if from < 0 || from >= txs.len() {
        None
    } else if spec_tx_matches(txs[from], addr) {
        Some(from)
    } else {
        spec_first_match(txs, addr, from + 1)
    }
}

/// The `0x`-prefixed candidate for one recipient.
pub fn eth_candidate(to: &String) -> (r: String)
    ensures
        r@ == spec_eth_candidate(to@),
{
    let mut c = String::from_str("0x");
    c.append(to.as_str());
    c
}

/// Whether one transaction pays the given candidate address.
pub fn tx_matches(tx: &ethereum::Transaction, addr: &String) -> (r: bool)
    ensures
        r == spec_tx_matches(*tx, addr@),
{
    match &tx.to_address {
        None => false,
        Some(t) => {
            let c = eth_candidate(t);
            *addr == c
        },
    }
}

/// Scans the block's transactions in order for the first one paying
/// `addr`.
pub fn first_match(txs: &Vec<ethereum::Transaction>, addr: &String) -> (r: Option<usize>)
    ensures
        match r {
            Some(j) => j < txs@.len() && spec_first_match(txs@, addr@, 0) == Some(j as int),
            None => spec_first_match(txs@, addr@, 0) is None,
        },
{
    let n = txs.len();
    for j in 0..n
        invariant
            n == txs@.len(),
            spec_first_match(txs@, addr@, 0) == spec_first_match(txs@, addr@, j as int),
    {
        if tx_matches(&txs[j], addr) {
            return Some(j);
        }
    }
    None
}

/// A payment after the block was applied: settled against its first
/// matching transaction, or untouched where none pays its address.
pub open spec fn spec_process_payment(p: Payment, block: ethereum::Block, now: u64) -> Payment {
    if p.currency == Currency::Eth {
        match spec_first_match(block.transactions@, p.address@, 0) {
            Some(j) => spec_settle_payment(
                p,
                block.transactions@[j].value,
                block.transactions@[j].hash,
                block.number,
                now,
            ),
            None => p,
        }
    } else {
        p
    }
}

/// Whether the block settles this payment.
pub open spec fn spec_payment_matched(p: Payment, block: ethereum::Block) -> bool {
    p.currency == Currency::Eth && spec_first_match(block.transactions@, p.address@, 0) is Some
}

/// The payout rows the block schedules for the payments at or after
/// `from`, with ids counted from `base`: one row per matched payment, in
/// payment order.
pub open spec fn spec_new_payouts(
    payments: Seq<Payment>,
    block: ethereum::Block,
    now: u64,
    from: int,
    base: int,
) -> Seq<Payout>
    decreases payments.len() - from,
{
    if from < 0 || from >= payments.len() {
        Seq::empty()
    } else if spec_payment_matched(payments[from], block) {
        let j = spec_first_match(block.transactions@, payments[from].address@, 0)->Some_0;
        seq![
            spec_payout_draft(
                spec_process_payment(payments[from], block, now),
                spec_settle_action(payments[from], block.transactions@[j].value, now),
                base as u64,
                now,
            ),
        ] + spec_new_payouts(payments, block, now, from + 1, base + 1)
    } else {
        spec_new_payouts(payments, block, now, from + 1, base)
    }
}

/// The candidate addresses a batch of transactions pays, in
/// transaction order, one per transaction that names a recipient.
pub open spec fn spec_candidates(txs: Seq<ethereum::Transaction>, from: int) -> Seq<Seq<char>>
    decreases txs.len() - from,
{
    if from < 0 || from >= txs.len() {
        Seq::empty()
    } else {
        match txs[from].to_address {
            Some(t) => seq![spec_eth_candidate(t@)] + spec_candidates(txs, from + 1),
            None => spec_candidates(txs, from + 1),
        }
    }
}

/// Extracts the candidate recipient addresses of a batch of
/// transactions. The result is a function of the transactions alone, so
/// reprocessing the same block yields the same candidates.
pub fn extract_candidates(txs: &Vec<ethereum::Transaction>) -> (r: Vec<String>)
    ensures
        r@.map_values(|s: String| s@) == spec_candidates(txs@, 0),
{
    let mut out: Vec<String> = Vec::new();
    let n = txs.len();
    for j in 0..n
        invariant
            n == txs@.len(),
            spec_candidates(txs@, 0) == out@.map_values(|s: String| s@) + spec_candidates(
                txs@,
                j as int,
            ),
    {
        match &txs[j].to_address {
            Some(t) => {
                let c = eth_candidate(t);
                out.push(c);
                proof {
                    assert(out@.map_values(|s: String| s@) =~= out@.drop_last().map_values(
                        |s: String| s@,
                    ).push(out@.last()@));
                    assert(out@.drop_last().map_values(|s: String| s@).push(out@.last()@)
                        + spec_candidates(txs@, j + 1) =~= out@.drop_last().map_values(
                        |s: String| s@,
                    ) + (seq![out@.last()@] + spec_candidates(txs@, j + 1)));
                }
            },
            None => {},
        }
    }
    proof {
        assert(spec_candidates(txs@, n as int) =~= Seq::<Seq<char>>::empty());
        assert(out@.map_values(|s: String| s@) + Seq::<Seq<char>>::empty() =~= out@.map_values(
            |s: String| s@,
        ));
    }
    out
}

/// Candidate extraction is deterministic: the same transactions give
/// the same candidate set, so reprocessing a block cannot change what
/// the processor matches against.
pub proof fn lemma_extraction_idempotent(
    a: Seq<ethereum::Transaction>,
    b: Seq<ethereum::Transaction>,
)
    requires
        a == b,
    ensures
        spec_candidates(a, 0) == spec_candidates(b, 0),
{
}

/// Status monotonicity: applying a block to a payment moves its status
/// along one allowed step of the life cycle, never backwards.
pub proof fn lemma_process_status_step(p: Payment, block: ethereum::Block, now: u64)
    ensures
        crate::domain::status_step(p.status, spec_process_payment(p, block, now).status),
{
}

/// Confirmation equation: a payment the block settles carries
/// `block_height_required = block.number + confirmations_required - 1`
/// and the hash of the first transaction that pays its address.
pub proof fn lemma_confirmation_equation(p: Payment, block: ethereum::Block, now: u64)
    requires
        spec_payment_matched(p, block),
        block.number + p.confirmations_required - 1 <= u64::MAX,
    ensures
        spec_process_payment(p, block, now).block_height_required == Some(
            (block.number + p.confirmations_required - 1) as u64,
        ),
        spec_process_payment(p, block, now).transaction_hash == Some(
            block.transactions@[spec_first_match(block.transactions@, p.address@, 0)->Some_0].hash,
        ),
{
}

/// Applies one block: every payment whose address the block pays is
/// settled against the first such transaction, that transaction's body
/// is recorded, one payout row per settled payment is scheduled, and the
/// Ethereum watermark advances to the block's number.
pub fn process_block(led: &mut Ledger, block: &ethereum::Block, now: u64)
    requires
        old(led).wf(),
        forall|k: int|
            0 <= k < old(led).payments@.len() ==> block.number + (
            #[trigger] old(led).payments@[k]).confirmations_required - 1 <= u64::MAX,
        old(led).next_payout_id + old(led).payments@.len() <= u64::MAX,
        old(led).status.eth_block_height matches Some(w) ==> w < block.number,
    ensures
        final(led).wf(),
        final(led).payments@.len() == old(led).payments@.len(),
        forall|k: int|
            0 <= k < final(led).payments@.len() ==> final(led).payments@[k] == spec_process_payment(
                old(led).payments@[k],
                *block,
                now,
            ),
        final(led).payouts@ == old(led).payouts@ + spec_new_payouts(
            old(led).payments@,
            *block,
            now,
            0,
            old(led).next_payout_id as int,
        ),
        final(led).next_payout_id == old(led).next_payout_id + spec_new_payouts(
            old(led).payments@,
            *block,
            now,
            0,
            old(led).next_payout_id as int,
        ).len(),
        final(led).status == spec_watermark_update(old(led).status, Currency::Eth, block.number),
        final(led).btc_transactions@ == old(led).btc_transactions@,
        old(led).eth_transactions@.is_prefix_of(final(led).eth_transactions@),
        forall|k: int|
            0 <= k < old(led).payments@.len() && spec_payment_matched(
                #[trigger] old(led).payments@[k],
                *block,
            ) ==> final(led).spec_has_eth_tx(
                block.transactions@[spec_first_match(
                    block.transactions@,
                    old(led).payments@[k].address@,
                    0,
                )->Some_0].hash@,
            ),
{
    let ghost led0 = *led;
    let n = led.payments.len();
    let ghost base0 = led0.payouts@.len() as int;
    proof {
        assert(led.payouts@.take(base0) =~= led0.payouts@);
        assert(led.payouts@.skip(base0) =~= Seq::<Payout>::empty());
        assert(led.payouts@.skip(base0) + spec_new_payouts(
            led0.payments@,
            *block,
            now,
            0,
            led0.next_payout_id as int,
        ) =~= spec_new_payouts(led0.payments@, *block, now, 0, led0.next_payout_id as int));
    }
    for i in 0..n
        invariant
            led.wf(),
            base0 == led0.payouts@.len(),
            n == led.payments@.len(),
            n == led0.payments@.len(),
            forall|k: int|
                0 <= k < i ==> led.payments@[k] == spec_process_payment(
                    led0.payments@[k],
                    *block,
                    now,
                ),
            forall|k: int| i <= k < n ==> led.payments@[k] == led0.payments@[k],
            forall|k: int|
                0 <= k < n ==> block.number + (
                #[trigger] led0.payments@[k]).confirmations_required - 1 <= u64::MAX,
            led.payouts@.len() - base0 == led.next_payout_id - led0.next_payout_id,
            led.next_payout_id + (n - i) <= u64::MAX,
            led.next_payout_id >= led0.next_payout_id,
            led.payouts@.len() >= base0,
            led.payouts@.take(base0) == led0.payouts@,
            spec_new_payouts(led0.payments@, *block, now, 0, led0.next_payout_id as int)
                == led.payouts@.skip(base0) + spec_new_payouts(
                led0.payments@,
                *block,
                now,
                i as int,
                led.next_payout_id as int,
            ),
            led.status == led0.status,
            led.btc_transactions@ == led0.btc_transactions@,
            led0.eth_transactions@.is_prefix_of(led.eth_transactions@),
            forall|k: int|
                0 <= k < i && spec_payment_matched(#[trigger] led0.payments@[k], *block)
                    ==> led.spec_has_eth_tx(
                    block.transactions@[spec_first_match(
                        block.transactions@,
                        led0.payments@[k].address@,
                        0,
                    )->Some_0].hash@,
                ),
    {
        let ghost led_pre = *led;
        let is_eth = led.payments[i].currency == Currency::Eth;
        let mut matched: Option<usize> = None;
        if is_eth {
            matched = first_match(&block.transactions, &led.payments[i].address);
        }
        match matched {
            Some(j) => {
                let value = block.transactions[j].value;
                let tx_hash = block.transactions[j].hash;
                led.record_eth_transaction(&block.transactions[j]);
                led.settle_and_insert(i, value, tx_hash, block.number, now);
                proof {
                    let p = led0.payments@[i as int];
                    assert(spec_payment_matched(p, *block));
                    assert(led.payments@[i as int] == spec_process_payment(p, *block, now));
                    let draft = spec_payout_draft(
                        spec_process_payment(p, *block, now),
                        spec_settle_action(p, block.transactions@[j as int].value, now),
                        led_pre.next_payout_id,
                        now,
                    );
                    assert(led.payments@[i as int] == spec_process_payment(p, *block, now));
                    assert(led.spec_has_eth_tx(block.transactions@[j as int].hash@));
                    assert forall|k: int|
                        0 <= k < i && spec_payment_matched(#[trigger] led0.payments@[k], *block)
                            implies led.spec_has_eth_tx(
                            block.transactions@[spec_first_match(
                                block.transactions@,
                                led0.payments@[k].address@,
                                0,
                            )->Some_0].hash@,
                        ) by {
                        let h = block.transactions@[spec_first_match(
                            block.transactions@,
                            led0.payments@[k].address@,
                            0,
                        )->Some_0].hash@;
                        let w = choose|t: int|
                            0 <= t < led_pre.eth_transactions@.len() && (
                            #[trigger] led_pre.eth_transactions@[t]).hash@ == h;
                        assert(led.eth_transactions@[w] == led_pre.eth_transactions@[w]);
                    }
                    assert(led.payouts@ == led_pre.payouts@.push(draft));
                    assert(led.payouts@.take(base0) =~= led_pre.payouts@.take(base0));
                    assert(led.payouts@.skip(base0) =~= led_pre.payouts@.skip(base0).push(draft));
                    assert(spec_new_payouts(
                        led0.payments@,
                        *block,
                        now,
                        i as int,
                        led_pre.next_payout_id as int,
                    ) =~= seq![draft] + spec_new_payouts(
                        led0.payments@,
                        *block,
                        now,
                        i + 1,
                        led.next_payout_id as int,
                    ));
                    assert(led_pre.payouts@.skip(base0).push(draft) + spec_new_payouts(
                        led0.payments@,
                        *block,
                        now,
                        i + 1,
                        led.next_payout_id as int,
                    ) =~= led_pre.payouts@.skip(base0) + (seq![draft] + spec_new_payouts(
                        led0.payments@,
                        *block,
                        now,
                        i + 1,
                        led.next_payout_id as int,
                    )));
                }
            },
            None => {
                proof {
                    let p = led0.payments@[i as int];
                    assert(!spec_payment_matched(p, *block));
                    assert(spec_process_payment(p, *block, now) == p);
                    assert(spec_new_payouts(
                        led0.payments@,
                        *block,
                        now,
                        i as int,
                        led.next_payout_id as int,
                    ) == spec_new_payouts(
                        led0.payments@,
                        *block,
                        now,
                        i + 1,
                        led.next_payout_id as int,
                    ));
                }
            },
        }
    }
    proof {
        assert(spec_new_payouts(led0.payments@, *block, now, n as int, led.next_payout_id as int)
            =~= Seq::<Payout>::empty());
        assert(led.payouts@.skip(base0) + Seq::<Payout>::empty() =~= led.payouts@.skip(base0));
        assert(led.payouts@ =~= led.payouts@.take(base0) + led.payouts@.skip(base0));
    }
    led.advance_watermark(Currency::Eth, block.number);
}

/// A payment after a batch of pending (mempool) transactions was
/// applied: the credited amount is recorded and a pending payment's
/// status moves by amount alone. No confirmation target, payout row or
/// watermark change: pre-confirmation visibility only.
pub open spec fn spec_pending_payment(p: Payment, txs: Seq<ethereum::Transaction>) -> Payment {
    if p.currency == Currency::Eth {
        match spec_first_match(txs, p.address@, 0) {
            Some(j) => Payment {
                amount_paid: Some(txs[j].value),
                status: if p.status == PaymentStatus::Pending {
                    if txs[j].value >= p.price {
                        PaymentStatus::Paid
                    } else {
                        PaymentStatus::InsufficientAmount
                    }
                } else {
                    p.status
                },
                ..p
            },
            None => p,
        }
    } else {
        p
    }
}

/// Applies a batch of pending transactions: records what each matched
/// payment has been credited and moves pending payments to `Paid` or
/// `InsufficientAmount`. Nothing else changes.
pub fn process_pending_transactions(led: &mut Ledger, txs: &Vec<ethereum::Transaction>)
    requires
        old(led).wf(),
    ensures
        final(led).wf(),
        final(led).payments@.len() == old(led).payments@.len(),
        forall|k: int|
            0 <= k < final(led).payments@.len() ==> final(led).payments@[k]
                == spec_pending_payment(old(led).payments@[k], txs@),
        final(led).payouts@ == old(led).payouts@,
        final(led).btc_transactions@ == old(led).btc_transactions@,
        final(led).eth_transactions@ == old(led).eth_transactions@,
        final(led).status == old(led).status,
        final(led).next_payout_id == old(led).next_payout_id,
{
    let ghost led0 = *led;
    let n = led.payments.len();
    for i in 0..n
        invariant
            n == led.payments@.len(),
            n == led0.payments@.len(),
            forall|k: int|
                0 <= k < i ==> led.payments@[k] == spec_pending_payment(led0.payments@[k], txs@),
            forall|k: int| i <= k < n ==> led.payments@[k] == led0.payments@[k],
            led.payouts@ == led0.payouts@,
            led.btc_transactions@ == led0.btc_transactions@,
            led.eth_transactions@ == led0.eth_transactions@,
            led.status == led0.status,
            led.next_payout_id == led0.next_payout_id,
            led.wf(),
    {
        let ghost led_pre = *led;
        let is_eth = led.payments[i].currency == Currency::Eth;
        let mut matched: Option<usize> = None;
        if is_eth {
            matched = first_match(txs, &led.payments[i].address);
        }
        if let Some(j) = matched {
            let value = txs[j].value;
            let p = &led.payments[i];
            let status = if p.status == PaymentStatus::Pending {
                if value >= p.price {
                    PaymentStatus::Paid
                } else {
                    PaymentStatus::InsufficientAmount
                }
            } else {
                p.status
            };
            let updated = Payment {
                id: p.id,
                store_id: p.store_id,
                currency: p.currency,
                address: p.address.clone(),
                price: p.price,
                amount_paid: Some(value),
                status,
                index: p.index,
                confirmations_required: p.confirmations_required,
                block_height_required: p.block_height_required,
                transaction_hash: p.transaction_hash,
                payout_transaction_hash: p.payout_transaction_hash,
                created_at: p.created_at,
                expires_at: p.expires_at,
            };
            led.payments[i] = updated;
            proof {
                crate::ledger::lemma_payment_update_wf(led_pre, *led, i as int);
            }
        }
    }
}

/// Status monotonicity along the pending path: a mempool update also
/// moves a payment's status only along one allowed step.
pub proof fn lemma_pending_status_step(p: Payment, txs: Seq<ethereum::Transaction>)
    ensures
        crate::domain::status_step(p.status, spec_pending_payment(p, txs).status),
{
}

} // verus!
