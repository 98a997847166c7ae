//! Applies one Bitcoin block to the ledger: candidate extraction from
//! decoded output scripts, payment matching, settlement, and the
//! watermark advance.

use vstd::prelude::*;

use crate::bitcoin;
use crate::domain::Currency;
use crate::ledger::{
    spec_payout_draft, spec_settle_action, spec_settle_payment, spec_watermark_update, Ledger,
};
use crate::model::{Payment, Payout};

verus! {

/// Whether one output pays the given address: the node decoded an
/// address list for its script and the first entry is the address.
/// A script without addresses, or with an empty list, names no
/// candidate.
pub open spec fn spec_output_matches(o: bitcoin::SignedTransactionOutput, addr: Seq<char>) -> bool {
    match o.script.addresses {
        Some(list) => list@.len() > 0 && list@[0]@ == addr,
        None => false,
    }
}

/// Index of the first output at or after `from` that pays `addr`.
pub open spec fn spec_first_output_match(
    outs: Seq<bitcoin::SignedTransactionOutput>,
    addr: Seq<char>,
    from: int,
) -> Option<int>
    decreases outs.len() - from,
{
    if from < 0 || from >= outs.len() {
        None
    } else if spec_output_matches(outs[from], addr) {
        Some(from)
    } else {
        spec_first_output_match(outs, addr, from + 1)
    }
}

/// Whether some output of the transaction pays `addr`.
pub open spec fn spec_tx_matches(tx: bitcoin::Transaction, addr: Seq<char>) -> bool {
    spec_first_output_match(tx.vout@, addr, 0) is Some
}

/// Index of the first transaction at or after `from` with an output
/// paying `addr`.
pub open spec fn spec_first_tx_match(
    txs: Seq<bitcoin::Transaction>,
    addr: Seq<char>,
    from: int,
) -> Option<int>
    decreases txs.len() - from,
{
    if from < 0 || from >= txs.len() {
        None
    } else if spec_tx_matches(txs[from], addr) {
        Some(from)
    } else {
        spec_first_tx_match(txs, addr, from + 1)
    }
}

/// Whether one output pays the given address.
pub fn output_matches(o: &bitcoin::SignedTransactionOutput, addr: &String) -> (r: bool)
    ensures
        r == spec_output_matches(*o, addr@),
{
    match &o.script.addresses {
        Some(list) => {
            if list.len() > 0 {
                list[0] == *addr
            } else {
                false
            }
        },
        None => false,
    }
}

/// Scans a transaction's outputs in order for the first one paying
/// `addr`.
pub fn first_output_match(outs: &Vec<bitcoin::SignedTransactionOutput>, addr: &String) -> (r:
    Option<usize>)
    ensures
        match r {
            Some(k) => k < outs@.len() && spec_first_output_match(outs@, addr@, 0) == Some(k as int),
            None => spec_first_output_match(outs@, addr@, 0) is None,
        },
{
    let n = outs.len();
    for k in 0..n
        invariant
            n == outs@.len(),
            spec_first_output_match(outs@, addr@, 0) == spec_first_output_match(
                outs@,
                addr@,
                k as int,
            ),
    {
        if output_matches(&outs[k], addr) {
            return Some(k);
        }
    }
    None
}

/// Scans the block's transactions in order for the first output paying
/// `addr`; returns the transaction and output indices.
pub fn first_match(txs: &Vec<bitcoin::Transaction>, addr: &String) -> (r: Option<(usize, usize)>)
    ensures
        match r {
            Some(jk) => jk.0 < txs@.len() && spec_first_tx_match(txs@, addr@, 0) == Some(
                jk.0 as int,
            ) && jk.1 < txs@[jk.0 as int].vout@.len() && spec_first_output_match(
                txs@[jk.0 as int].vout@,
                addr@,
                0,
            ) == Some(jk.1 as int),
            None => spec_first_tx_match(txs@, addr@, 0) is None,
        },
{
    let n = txs.len();
    for j in 0..n
        invariant
            n == txs@.len(),
            spec_first_tx_match(txs@, addr@, 0) == spec_first_tx_match(txs@, addr@, j as int),
    {
        match first_output_match(&txs[j].vout, addr) {
            Some(k) => {
                return Some((j, k));
            },
            None => {},
        }
    }
    None
}

/// The satoshi value the block credits a matched address: the first
/// matching output of the first matching transaction.
pub open spec fn spec_matched_value(txs: Seq<bitcoin::Transaction>, addr: Seq<char>) -> u128 {
    let j = spec_first_tx_match(txs, addr, 0)->Some_0;
    let k = spec_first_output_match(txs[j].vout@, addr, 0)->Some_0;
    txs[j].vout@[k].value as u128
}

/// A payment after the block was applied: settled against the first
/// matching output, or untouched where no output pays its address.
pub open spec fn spec_process_payment(p: Payment, block: bitcoin::Block, now: u64) -> Payment {
    if p.currency == Currency::Btc {
        match spec_first_tx_match(block.transactions@, p.address@, 0) {
            Some(j) => spec_settle_payment(
                p,
                spec_matched_value(block.transactions@, p.address@),
                block.transactions@[j].hash,
                block.height,
                now,
            ),
            None => p,
        }
    } else {
        p
    }
}

/// Whether the block settles this payment.
pub open spec fn spec_payment_matched(p: Payment, block: bitcoin::Block) -> bool {
    p.currency == Currency::Btc && spec_first_tx_match(block.transactions@, p.address@, 0) is Some
}

/// The payout rows the block schedules for the payments at or after
/// `from`, with ids counted from `base`: one row per matched payment, in
/// payment order.
pub open spec fn spec_new_payouts(
    payments: Seq<Payment>,
    block: bitcoin::Block,
    now: u64,
    from: int,
    base: int,
) -> Seq<Payout>
    decreases payments.len() - from,
{
    if from < 0 || from >= payments.len() {
        Seq::empty()
    } else if spec_payment_matched(payments[from], block) {
        seq![
            spec_payout_draft(
                spec_process_payment(payments[from], block, now),
                spec_settle_action(
                    payments[from],
                    spec_matched_value(block.transactions@, payments[from].address@),
                    now,
                ),
                base as u64,
                now,
            ),
        ] + spec_new_payouts(payments, block, now, from + 1, base + 1)
    } else {
        spec_new_payouts(payments, block, now, from + 1, base)
    }
}

/// The candidate addresses one transaction's outputs pay, in output
/// order: the first decoded address of every output that has one.
pub open spec fn spec_output_candidates(
    outs: Seq<bitcoin::SignedTransactionOutput>,
    from: int,
) -> Seq<Seq<char>>
    decreases outs.len() - from,
{
    if from < 0 || from >= outs.len() {
        Seq::empty()
    } else {
        match outs[from].script.addresses {
            Some(list) => if list@.len() > 0 {
                seq![list@[0]@] + spec_output_candidates(outs, from + 1)
            } else {
                spec_output_candidates(outs, from + 1)
            },
            None => spec_output_candidates(outs, from + 1),
        }
    }
}

/// Extracts the candidate addresses of one transaction. The result is a
/// function of the transaction alone, so reprocessing the same block
/// yields the same candidates.
pub fn extract_output_candidates(tx: &bitcoin::Transaction) -> (r: Vec<String>)
    ensures
        r@.map_values(|s: String| s@) == spec_output_candidates(tx.vout@, 0),
{
    let mut out: Vec<String> = Vec::new();
    let n = tx.vout.len();
    for k in 0..n
        invariant
            n == tx.vout@.len(),
            spec_output_candidates(tx.vout@, 0) == out@.map_values(|s: String| s@)
                + spec_output_candidates(tx.vout@, k as int),
    {
        match &tx.vout[k].script.addresses {
            Some(list) => {
                if list.len() > 0 {
                    out.push(list[0].clone());
                    proof {
                        assert(out@.map_values(|s: String| s@) =~= out@.drop_last().map_values(
                            |s: String| s@,
                        ).push(out@.last()@));
                        assert(out@.drop_last().map_values(|s: String| s@).push(out@.last()@)
                            + spec_output_candidates(tx.vout@, k + 1) =~= out@.drop_last().map_values(
                            |s: String| s@,
                        ) + (seq![out@.last()@] + spec_output_candidates(tx.vout@, k + 1)));
                    }
                }
            },
            None => {},
        }
    }
    proof {
        assert(spec_output_candidates(tx.vout@, n as int) =~= Seq::<Seq<char>>::empty());
        assert(out@.map_values(|s: String| s@) + Seq::<Seq<char>>::empty() =~= out@.map_values(
            |s: String| s@,
        ));
    }
    out
}

/// Applies one block: every payment one of the block's outputs pays is
/// settled against the first such output, that transaction's body is
/// recorded, one payout row per settled payment is scheduled, and the
/// Bitcoin watermark advances to the block's height.
pub fn process_block(led: &mut Ledger, block: &bitcoin::Block, now: u64)
    requires
        old(led).wf(),
        forall|k: int|
            0 <= k < old(led).payments@.len() ==> block.height + (
            #[trigger] old(led).payments@[k]).confirmations_required - 1 <= u64::MAX,
        old(led).next_payout_id + old(led).payments@.len() <= u64::MAX,
        old(led).status.btc_block_height matches Some(w) ==> w < block.height,
    ensures
        final(led).wf(),
        final(led).payments@.len() == old(led).payments@.len(),
        forall|k: int|
            0 <= k < final(led).payments@.len() ==> final(led).payments@[k]
                == spec_process_payment(old(led).payments@[k], *block, now),
        final(led).payouts@ == old(led).payouts@ + spec_new_payouts(
            old(led).payments@,
            *block,
            now,
            0,
            old(led).next_payout_id as int,
        ),
        final(led).next_payout_id == old(led).next_payout_id + spec_new_payouts(
            old(led).payments@,
            *block,
            now,
            0,
            old(led).next_payout_id as int,
        ).len(),
        final(led).status == spec_watermark_update(old(led).status, Currency::Btc, block.height),
        final(led).eth_transactions@ == old(led).eth_transactions@,
        old(led).btc_transactions@.is_prefix_of(final(led).btc_transactions@),
        forall|k: int|
            0 <= k < old(led).payments@.len() && spec_payment_matched(
                #[trigger] old(led).payments@[k],
                *block,
            ) ==> final(led).spec_has_btc_tx(
                block.transactions@[spec_first_tx_match(
                    block.transactions@,
                    old(led).payments@[k].address@,
                    0,
                )->Some_0].txid@,
            ),
{
    let ghost led0 = *led;
    let n = led.payments.len();
    let ghost base0 = led0.payouts@.len() as int;
    proof {
        assert(led.payouts@.take(base0) =~= led0.payouts@);
        assert(led.payouts@.skip(base0) =~= Seq::<Payout>::empty());
        assert(led.payouts@.skip(base0) + spec_new_payouts(
            led0.payments@,
            *block,
            now,
            0,
            led0.next_payout_id as int,
        ) =~= spec_new_payouts(led0.payments@, *block, now, 0, led0.next_payout_id as int));
    }
    for i in 0..n
        invariant
            led.wf(),
            base0 == led0.payouts@.len(),
            n == led.payments@.len(),
            n == led0.payments@.len(),
            forall|k: int|
                0 <= k < i ==> led.payments@[k] == spec_process_payment(
                    led0.payments@[k],
                    *block,
                    now,
                ),
            forall|k: int| i <= k < n ==> led.payments@[k] == led0.payments@[k],
            forall|k: int|
                0 <= k < n ==> block.height + (
                #[trigger] led0.payments@[k]).confirmations_required - 1 <= u64::MAX,
            led.payouts@.len() - base0 == led.next_payout_id - led0.next_payout_id,
            led.next_payout_id + (n - i) <= u64::MAX,
            led.next_payout_id >= led0.next_payout_id,
            led.payouts@.len() >= base0,
            led.payouts@.take(base0) == led0.payouts@,
            spec_new_payouts(led0.payments@, *block, now, 0, led0.next_payout_id as int)
                == led.payouts@.skip(base0) + spec_new_payouts(
                led0.payments@,
                *block,
                now,
                i as int,
                led.next_payout_id as int,
            ),
            led.status == led0.status,
            led.eth_transactions@ == led0.eth_transactions@,
            led0.btc_transactions@.is_prefix_of(led.btc_transactions@),
            forall|k: int|
                0 <= k < i && spec_payment_matched(#[trigger] led0.payments@[k], *block)
                    ==> led.spec_has_btc_tx(
                    block.transactions@[spec_first_tx_match(
                        block.transactions@,
                        led0.payments@[k].address@,
                        0,
                    )->Some_0].txid@,
                ),
    {
        let ghost led_pre = *led;
        let is_btc = led.payments[i].currency == Currency::Btc;
        let mut matched: Option<(usize, usize)> = None;
        if is_btc {
            matched = first_match(&block.transactions, &led.payments[i].address);
        }
        match matched {
            Some((j, k)) => {
                let value = block.transactions[j].vout[k].value as u128;
                let tx_hash = block.transactions[j].hash;
                led.record_btc_transaction(&block.transactions[j]);
                led.settle_and_insert(i, value, tx_hash, block.height, now);
                proof {
                    let p = led0.payments@[i as int];
                    assert(spec_payment_matched(p, *block));
                    assert(value == spec_matched_value(block.transactions@, p.address@));
                    assert(led.payments@[i as int] == spec_process_payment(p, *block, now));
                    let draft = spec_payout_draft(
                        spec_process_payment(p, *block, now),
                        spec_settle_action(p, value, now),
                        led_pre.next_payout_id,
                        now,
                    );
                    assert(led.spec_has_btc_tx(block.transactions@[j as int].txid@));
                    assert forall|k: int|
                        0 <= k < i && spec_payment_matched(#[trigger] led0.payments@[k], *block)
                            implies led.spec_has_btc_tx(
                            block.transactions@[spec_first_tx_match(
                                block.transactions@,
                                led0.payments@[k].address@,
                                0,
                            )->Some_0].txid@,
                        ) by {
                        let h = block.transactions@[spec_first_tx_match(
                            block.transactions@,
                            led0.payments@[k].address@,
                            0,
                        )->Some_0].txid@;
                        let w = choose|t: int|
                            0 <= t < led_pre.btc_transactions@.len() && (
                            #[trigger] led_pre.btc_transactions@[t]).txid@ == h;
                        assert(led.btc_transactions@[w] == led_pre.btc_transactions@[w]);
                    }
                    assert(led.payouts@ == led_pre.payouts@.push(draft));
                    assert(led.payouts@.take(base0) =~= led_pre.payouts@.take(base0));
                    assert(led.payouts@.skip(base0) =~= led_pre.payouts@.skip(base0).push(draft));
                    assert(spec_new_payouts(
                        led0.payments@,
                        *block,
                        now,
                        i as int,
                        led_pre.next_payout_id as int,
                    ) =~= seq![draft] + spec_new_payouts(
                        led0.payments@,
                        *block,
                        now,
                        i + 1,
                        led.next_payout_id as int,
                    ));
                    assert(led_pre.payouts@.skip(base0).push(draft) + spec_new_payouts(
                        led0.payments@,
                        *block,
                        now,
                        i + 1,
                        led.next_payout_id as int,
                    ) =~= led_pre.payouts@.skip(base0) + (seq![draft] + spec_new_payouts(
                        led0.payments@,
                        *block,
                        now,
                        i + 1,
                        led.next_payout_id as int,
                    )));
                }
            },
            None => {
                proof {
                    let p = led0.payments@[i as int];
                    assert(!spec_payment_matched(p, *block));
                    assert(spec_process_payment(p, *block, now) == p);
                    assert(spec_new_payouts(
                        led0.payments@,
                        *block,
                        now,
                        i as int,
                        led.next_payout_id as int,
                    ) == spec_new_payouts(
                        led0.payments@,
                        *block,
                        now,
                        i + 1,
                        led.next_payout_id as int,
                    ));
                }
            },
        }
    }
    proof {
        assert(spec_new_payouts(led0.payments@, *block, now, n as int, led.next_payout_id as int)
            =~= Seq::<Payout>::empty());
        assert(led.payouts@.skip(base0) + Seq::<Payout>::empty() =~= led.payouts@.skip(base0));
        assert(led.payouts@ =~= led.payouts@.take(base0) + led.payouts@.skip(base0));
    }
    led.advance_watermark(Currency::Btc, block.height);
}

/// A payment after a batch of mempool transactions was applied: the
/// credited amount is recorded and a pending payment's status moves by
/// amount alone. No confirmation target, payout row or watermark change:
/// pre-confirmation visibility only.
pub open spec fn spec_pending_payment(p: Payment, txs: Seq<bitcoin::Transaction>) -> Payment {
    if p.currency == Currency::Btc {
        match spec_first_tx_match(txs, p.address@, 0) {
            Some(j) => Payment {
                amount_paid: Some(spec_matched_value(txs, p.address@)),
                status: if p.status == crate::domain::PaymentStatus::Pending {
                    if spec_matched_value(txs, p.address@) >= p.price {
                        crate::domain::PaymentStatus::Paid
                    } else {
                        crate::domain::PaymentStatus::InsufficientAmount
                    }
                } else {
                    p.status
                },
                ..p
            },
            None => p,
        }
    } else {
        p
    }
}

/// Applies a batch of mempool transactions: records what each matched
/// payment has been credited and moves pending payments to `Paid` or
/// `InsufficientAmount`. Nothing else changes.
pub fn process_mempool_transactions(led: &mut Ledger, txs: &Vec<bitcoin::Transaction>)
    requires
        old(led).wf(),
    ensures
        final(led).wf(),
        final(led).payments@.len() == old(led).payments@.len(),
        forall|k: int|
            0 <= k < final(led).payments@.len() ==> final(led).payments@[k]
                == spec_pending_payment(old(led).payments@[k], txs@),
        final(led).payouts@ == old(led).payouts@,
        final(led).btc_transactions@ == old(led).btc_transactions@,
        final(led).eth_transactions@ == old(led).eth_transactions@,
        final(led).status == old(led).status,
        final(led).next_payout_id == old(led).next_payout_id,
{
    let ghost led0 = *led;
    let n = led.payments.len();
    for i in 0..n
        invariant
            n == led.payments@.len(),
            n == led0.payments@.len(),
            forall|k: int|
                0 <= k < i ==> led.payments@[k] == spec_pending_payment(led0.payments@[k], txs@),
            forall|k: int| i <= k < n ==> led.payments@[k] == led0.payments@[k],
            led.payouts@ == led0.payouts@,
            led.btc_transactions@ == led0.btc_transactions@,
            led.eth_transactions@ == led0.eth_transactions@,
            led.status == led0.status,
            led.next_payout_id == led0.next_payout_id,
            led.wf(),
    {
        let ghost led_pre = *led;
        let is_btc = led.payments[i].currency == Currency::Btc;
        let mut matched: Option<(usize, usize)> = None;
        if is_btc {
            matched = first_match(txs, &led.payments[i].address);
        }
        if let Some((j, k)) = matched {
            let value = txs[j].vout[k].value as u128;
            let p = &led.payments[i];
            let status = if p.status == crate::domain::PaymentStatus::Pending {
                if value >= p.price {
                    crate::domain::PaymentStatus::Paid
                } else {
                    crate::domain::PaymentStatus::InsufficientAmount
                }
            } else {
                p.status
            };
            let updated = Payment {
                id: p.id,
                store_id: p.store_id,
                currency: p.currency,
                address: p.address.clone(),
                price: p.price,
                amount_paid: Some(value),
                status,
                index: p.index,
                confirmations_required: p.confirmations_required,
                block_height_required: p.block_height_required,
                transaction_hash: p.transaction_hash,
                payout_transaction_hash: p.payout_transaction_hash,
                created_at: p.created_at,
                expires_at: p.expires_at,
            };
            led.payments[i] = updated;
            proof {
                assert(value == spec_matched_value(txs@, led0.payments@[i as int].address@));
                crate::ledger::lemma_payment_update_wf(led_pre, *led, i as int);
            }
        }
    }
}

/// Status monotonicity along the pending path: a mempool update also
/// moves a payment's status only along one allowed step.
pub proof fn lemma_pending_status_step(p: Payment, txs: Seq<bitcoin::Transaction>)
    ensures
        crate::domain::status_step(p.status, spec_pending_payment(p, txs).status),
{
}

/// Status monotonicity: applying a block to a payment moves its status
/// along one allowed step of the life cycle, never backwards.
pub proof fn lemma_process_status_step(p: Payment, block: bitcoin::Block, now: u64)
    ensures
        crate::domain::status_step(p.status, spec_process_payment(p, block, now).status),
{
}

/// Confirmation equation: a payment the block settles carries
/// `block_height_required = block.height + confirmations_required - 1`
/// and the hash of the first transaction with an output paying its
/// address.
pub proof fn lemma_confirmation_equation(p: Payment, block: bitcoin::Block, now: u64)
    requires
        spec_payment_matched(p, block),
        block.height + p.confirmations_required - 1 <= u64::MAX,
    ensures
        spec_process_payment(p, block, now).block_height_required == Some(
            (block.height + p.confirmations_required - 1) as u64,
        ),
        spec_process_payment(p, block, now).transaction_hash == Some(
            block.transactions@[spec_first_tx_match(
                block.transactions@,
                p.address@,
                0,
            )->Some_0].hash,
        ),
{
}

} // verus!
