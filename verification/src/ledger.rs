//! The engine's shared mutable state: payments, payouts, transaction
//! records and the watermark row, with the invariants every operation
//! preserves.
//!
//! The shell persists this state in a relational store; the engine's
//! logic only ever sees it through the operations here, so the
//! invariants proved here are the table invariants of the running
//! system.

use vstd::prelude::*;

use crate::bitcoin;
use crate::domain::{Currency, PaymentStatus, PayoutAction, PayoutStatus};
use crate::ethereum;
use crate::hash::H256;
use crate::model::{AppStatus, AppStatusPayload, Payment, Payout};

verus! {

/// The rows the engine reads and writes, plus the id source for new
/// payout rows.
pub struct Ledger {
    pub payments: Vec<Payment>,
    pub payouts: Vec<Payout>,
    pub btc_transactions: Vec<bitcoin::Transaction>,
    pub eth_transactions: Vec<ethereum::Transaction>,
    pub status: AppStatus,
    pub next_payout_id: u64,
}

impl Ledger {
    /// Table invariants: unique row ids, well-formed payments, fresh
    /// payout ids below the id source, at most one forwarding payout per
    /// payment, and a forwarding payout only for a payment that has left
    /// `Pending`.
    pub open spec fn wf(&self) -> bool {
        &&& forall|i: int, j: int|
            0 <= i < j < self.payments@.len() ==> self.payments@[i].id != self.payments@[j].id
        &&& forall|i: int| 0 <= i < self.payments@.len() ==> (#[trigger] self.payments@[i]).wf()
        &&& forall|i: int, j: int|
            0 <= i < j < self.payouts@.len() ==> self.payouts@[i].id != self.payouts@[j].id
        &&& forall|i: int|
            0 <= i < self.payouts@.len() ==> (#[trigger] self.payouts@[i]).id
                < self.next_payout_id
        &&& forall|i: int, j: int|
            0 <= i < j < self.payouts@.len() && (#[trigger] self.payouts@[i]).action
                == PayoutAction::Payout && (#[trigger] self.payouts@[j]).action
                == PayoutAction::Payout ==> self.payouts@[i].payment_id
                != self.payouts@[j].payment_id
        &&& forall|i: int, j: int|
            0 <= i < self.payouts@.len() && 0 <= j < self.payments@.len()
                && (#[trigger] self.payouts@[i]).action == PayoutAction::Payout
                && (#[trigger] self.payments@[j]).id == self.payouts@[i].payment_id
                ==> self.payments@[j].status != PaymentStatus::Pending
    }

    /// Whether a transaction with the given hash is already recorded for
    /// Ethereum.
    pub open spec fn spec_has_eth_tx(&self, hash: Seq<u8>) -> bool {
        exists|j: int|
            0 <= j < self.eth_transactions@.len() && (#[trigger] self.eth_transactions@[j]).hash@
                == hash
    }

    /// Whether a transaction with the given txid is already recorded for
    /// Bitcoin.
    pub open spec fn spec_has_btc_tx(&self, txid: Seq<u8>) -> bool {
        exists|j: int|
            0 <= j < self.btc_transactions@.len() && (#[trigger] self.btc_transactions@[j]).txid@
                == txid
    }
}

/// The payout action one observed credit decides: forward the funds when
/// a pending payment was paid in full before expiry, return them in
/// every other case.
pub open spec fn spec_settle_action(p: Payment, value: u128, now: u64) -> PayoutAction {
    if p.status == PaymentStatus::Pending && now < p.expires_at && value >= p.price {
        PayoutAction::Payout
    } else {
        PayoutAction::Refund
    }
}

/// The payment status one observed credit decides. A payment that
/// already left `Pending` keeps its status.
pub open spec fn spec_settle_status(p: Payment, value: u128, now: u64) -> PaymentStatus {
    if p.status == PaymentStatus::Pending {
        if now >= p.expires_at {
            PaymentStatus::Expired
        } else if value >= p.price {
            PaymentStatus::Paid
        } else {
            PaymentStatus::InsufficientAmount
        }
    } else {
        p.status
    }
}

/// The settled payment: status per `spec_settle_status`, the
/// confirmation target `height + confirmations_required - 1`, and the
/// hash of the credited transaction.
pub open spec fn spec_settle_payment(
    p: Payment,
    value: u128,
    tx_hash: H256,
    height: u64,
    now: u64,
) -> Payment {
    Payment {
        status: spec_settle_status(p, value, now),
        block_height_required: Some((height + p.confirmations_required - 1) as u64),
        transaction_hash: Some(tx_hash),
        ..p
    }
}

/// The payout row scheduled for a settled payment.
pub open spec fn spec_payout_draft(p: Payment, action: PayoutAction, id: u64, now: u64) -> Payout {
    Payout {
        id,
        status: PayoutStatus::Pending,
        action,
        store_id: p.store_id,
        payment_id: p.id,
        currency: p.currency,
        block_height_required: p.block_height_required->Some_0,
        transaction_hash: None,
        created_at: now,
    }
}

/// Settles one payment against one observed credit: the decision both
/// chains' processors apply per matched payment.
pub fn settle_payment(p: &Payment, value: u128, tx_hash: H256, height: u64, now: u64) -> (r: (
    Payment,
    PayoutAction,
))
    requires
        p.wf(),
        height + p.confirmations_required - 1 <= u64::MAX,
    ensures
        r.0 == spec_settle_payment(*p, value, tx_hash, height, now),
        r.1 == spec_settle_action(*p, value, now),
{
    let status: PaymentStatus;
    let action: PayoutAction;
    if p.status == PaymentStatus::Pending {
        if now >= p.expires_at {
            status = PaymentStatus::Expired;
            action = PayoutAction::Refund;
        } else if value >= p.price {
            status = PaymentStatus::Paid;
            action = PayoutAction::Payout;
        } else {
            status = PaymentStatus::InsufficientAmount;
            action = PayoutAction::Refund;
        }
    } else {
        status = p.status;
        action = PayoutAction::Refund;
    }
    let block_height_required = height + (p.confirmations_required as u64 - 1);
    let settled = Payment {
        id: p.id,
        store_id: p.store_id,
        currency: p.currency,
        address: p.address.clone(),
        price: p.price,
        amount_paid: p.amount_paid,
        status,
        index: p.index,
        confirmations_required: p.confirmations_required,
        block_height_required: Some(block_height_required),
        transaction_hash: Some(tx_hash),
        payout_transaction_hash: p.payout_transaction_hash,
        created_at: p.created_at,
        expires_at: p.expires_at,
    };
    (settled, action)
}

impl Ledger {
    /// Applies one matched credit to payment `i` and schedules its
    /// payout row, as one database transaction would.
    pub fn settle_and_insert(&mut self, i: usize, value: u128, tx_hash: H256, height: u64, now: u64)
        requires
            old(self).wf(),
            i < old(self).payments@.len(),
            height + old(self).payments@[i as int].confirmations_required - 1 <= u64::MAX,
            old(self).next_payout_id < u64::MAX,
        ensures
            final(self).wf(),
            final(self).payments@ == old(self).payments@.update(
                i as int,
                spec_settle_payment(old(self).payments@[i as int], value, tx_hash, height, now),
            ),
            final(self).payouts@ == old(self).payouts@.push(
                spec_payout_draft(
                    spec_settle_payment(old(self).payments@[i as int], value, tx_hash, height, now),
                    spec_settle_action(old(self).payments@[i as int], value, now),
                    old(self).next_payout_id,
                    now,
                ),
            ),
            final(self).next_payout_id == old(self).next_payout_id + 1,
            final(self).status == old(self).status,
            final(self).btc_transactions@ == old(self).btc_transactions@,
            final(self).eth_transactions@ == old(self).eth_transactions@,
    {
        let ghost old_self = *self;
        let p = &self.payments[i];
        let (settled, action) = settle_payment(p, value, tx_hash, height, now);
        let draft = Payout {
            id: self.next_payout_id,
            status: PayoutStatus::Pending,
            action,
            store_id: settled.store_id,
            payment_id: settled.id,
            currency: settled.currency,
            block_height_required: match settled.block_height_required {
                Some(h) => h,
                None => 0,
            },
            transaction_hash: None,
            created_at: now,
        };
        self.payments[i] = settled;
        self.payouts.push(draft);
        self.next_payout_id = self.next_payout_id + 1;
        proof {
            lemma_settle_insert_wf(old_self, *self, i as int, value, tx_hash, height, now);
        }
    }
}

/// The one-row settle step keeps every table invariant.
proof fn lemma_settle_insert_wf(
    pre: Ledger,
    post: Ledger,
    i: int,
    value: u128,
    tx_hash: H256,
    height: u64,
    now: u64,
)
    requires
        pre.wf(),
        0 <= i < pre.payments@.len(),
        pre.next_payout_id < u64::MAX,
        post.payments@ == pre.payments@.update(
            i,
            spec_settle_payment(pre.payments@[i], value, tx_hash, height, now),
        ),
        post.payouts@ == pre.payouts@.push(
            spec_payout_draft(
                spec_settle_payment(pre.payments@[i], value, tx_hash, height, now),
                spec_settle_action(pre.payments@[i], value, now),
                pre.next_payout_id,
                now,
            ),
        ),
        post.next_payout_id == pre.next_payout_id + 1,
    ensures
        post.wf(),
{
    let p = pre.payments@[i];
    let settled = spec_settle_payment(p, value, tx_hash, height, now);
    let action = spec_settle_action(p, value, now);
    assert forall|k: int| 0 <= k < post.payments@.len() implies (#[trigger] post.payments@[k]).id
        == pre.payments@[k].id && post.payments@[k].wf() && (pre.payments@[k].status
        != PaymentStatus::Pending ==> post.payments@[k].status == pre.payments@[k].status) by {
        if k == i {
            assert(post.payments@[k] == settled);
        }
    }
    let n = pre.payouts@.len() as int;
    assert(post.payouts@[n].action == PayoutAction::Payout ==> settled.status
        == PaymentStatus::Paid);
    // A forwarding payout for the settled payment cannot already exist:
    // the payment was still `Pending`.
    assert forall|k: int|
        0 <= k < n && (#[trigger] post.payouts@[k]).action == PayoutAction::Payout
            && action == PayoutAction::Payout implies post.payouts@[k].payment_id != p.id by {
        assert(pre.payouts@[k] == post.payouts@[k]);
        assert(pre.payments@[i].id == p.id);
    }
    assert forall|k: int, j: int|
        0 <= k < post.payouts@.len() && 0 <= j < post.payments@.len()
            && (#[trigger] post.payouts@[k]).action == PayoutAction::Payout
            && (#[trigger] post.payments@[j]).id == post.payouts@[k].payment_id implies post.payments@[j].status
        != PaymentStatus::Pending by {
        if k < n {
            assert(pre.payouts@[k] == post.payouts@[k]);
            assert(pre.payments@[j].id == post.payments@[j].id);
            assert(pre.payments@[j].status != PaymentStatus::Pending);
        } else {
            // The new row: it can only be a forwarding payout for the
            // payment settled here, which has just become `Paid`.
            assert(post.payouts@[k] == spec_payout_draft(settled, action, pre.next_payout_id, now));
            if j != i {
                assert(pre.payments@[j].id != pre.payments@[i].id);
            }
        }
    }
}

impl Ledger {
    /// Records an Ethereum transaction body, once per hash.
    pub fn record_eth_transaction(&mut self, tx: &ethereum::Transaction)
        ensures
            old(self).spec_has_eth_tx(tx.hash@) ==> final(self).eth_transactions@ == old(
                self,
            ).eth_transactions@,
            !old(self).spec_has_eth_tx(tx.hash@) ==> final(self).eth_transactions@ == old(
                self,
            ).eth_transactions@.push(*tx) && final(self).spec_has_eth_tx(tx.hash@),
            final(self).payments@ == old(self).payments@,
            final(self).payouts@ == old(self).payouts@,
            final(self).btc_transactions@ == old(self).btc_transactions@,
            final(self).status == old(self).status,
            final(self).next_payout_id == old(self).next_payout_id,
            final(self).wf() == old(self).wf(),
    {
        let n = self.eth_transactions.len();
        for j in 0..n
            invariant
                n == self.eth_transactions@.len(),
                forall|k: int|
                    0 <= k < j ==> (#[trigger] self.eth_transactions@[k]).hash@ != tx.hash@,
                *self == *old(self),
        {
            if self.eth_transactions[j].hash == tx.hash {
                return ;
            }
        }
        let copy = ethereum::Transaction {
            hash: tx.hash,
            to_address: match &tx.to_address {
                Some(a) => Some(a.clone()),
                None => None,
            },
            value: tx.value,
        };
        assert(copy == *tx);
        self.eth_transactions.push(copy);
        proof {
            let n = old(self).eth_transactions@.len() as int;
            assert(self.eth_transactions@[n].hash@ == tx.hash@);
        }
    }
}

impl Ledger {
    /// Records a Bitcoin transaction body, once per txid.
    pub fn record_btc_transaction(&mut self, tx: &bitcoin::Transaction)
        ensures
            old(self).spec_has_btc_tx(tx.txid@) ==> final(self).btc_transactions@ == old(
                self,
            ).btc_transactions@,
            !old(self).spec_has_btc_tx(tx.txid@) ==> final(self).btc_transactions@.len() == old(
                self,
            ).btc_transactions@.len() + 1 && final(self).btc_transactions@.take(
                old(self).btc_transactions@.len() as int,
            ) == old(self).btc_transactions@ && bitcoin::spec_tx_eq(
                final(self).btc_transactions@.last(),
                *tx,
            ) && final(self).spec_has_btc_tx(tx.txid@),
            final(self).payments@ == old(self).payments@,
            final(self).payouts@ == old(self).payouts@,
            final(self).eth_transactions@ == old(self).eth_transactions@,
            final(self).status == old(self).status,
            final(self).next_payout_id == old(self).next_payout_id,
            final(self).wf() == old(self).wf(),
    {
        let n = self.btc_transactions.len();
        for j in 0..n
            invariant
                n == self.btc_transactions@.len(),
                forall|k: int|
                    0 <= k < j ==> (#[trigger] self.btc_transactions@[k]).txid@ != tx.txid@,
                *self == *old(self),
        {
            if self.btc_transactions[j].txid == tx.txid {
                return ;
            }
        }
        let copy = tx.duplicate();
        self.btc_transactions.push(copy);
        proof {
            let n0 = old(self).btc_transactions@.len() as int;
            assert(self.btc_transactions@[n0].txid@ == tx.txid@);
        }
    }
}

impl Ledger {
    /// Advances one chain's processed watermark, as persisting an
    /// `AppStatusPayload` over the singleton row would.
    pub fn advance_watermark(&mut self, currency: Currency, height: u64)
        ensures
            final(self).status == spec_watermark_update(old(self).status, currency, height),
            final(self).payments@ == old(self).payments@,
            final(self).payouts@ == old(self).payouts@,
            final(self).btc_transactions@ == old(self).btc_transactions@,
            final(self).eth_transactions@ == old(self).eth_transactions@,
            final(self).next_payout_id == old(self).next_payout_id,
            final(self).wf() == old(self).wf(),
    {
        let payload = match currency {
            Currency::Eth => AppStatusPayload {
                id: self.status.id,
                eth_block_height: Some(Some(height)),
                btc_block_height: None,
            },
            Currency::Btc => AppStatusPayload {
                id: self.status.id,
                eth_block_height: None,
                btc_block_height: Some(Some(height)),
            },
        };
        self.status = self.status.apply(&payload);
    }
}

/// Replacing one payment with an update that keeps its id and
/// well-formedness, and does not re-enter `Pending`, keeps every table
/// invariant.
pub(crate) proof fn lemma_payment_update_wf(pre: Ledger, post: Ledger, i: int)
    requires
        pre.wf(),
        0 <= i < pre.payments@.len(),
        post.payments@.len() == pre.payments@.len(),
        forall|k: int|
            0 <= k < pre.payments@.len() && k != i ==> post.payments@[k] == pre.payments@[k],
        post.payments@[i].id == pre.payments@[i].id,
        post.payments@[i].wf() == pre.payments@[i].wf(),
        pre.payments@[i].status != PaymentStatus::Pending ==> post.payments@[i].status
            == pre.payments@[i].status,
        post.payouts@ == pre.payouts@,
        post.next_payout_id == pre.next_payout_id,
    ensures
        post.wf(),
{
    assert forall|k: int| 0 <= k < post.payments@.len() implies (#[trigger] post.payments@[k]).id
        == pre.payments@[k].id && post.payments@[k].wf() == pre.payments@[k].wf() && (
    pre.payments@[k].status != PaymentStatus::Pending ==> post.payments@[k].status
        == pre.payments@[k].status) by {
        if k == i {
        }
    }
}

/// The watermark row after one chain's watermark moved to `height`.
pub open spec fn spec_watermark_update(s: AppStatus, currency: Currency, height: u64) -> AppStatus {
    match currency {
        Currency::Eth => AppStatus { eth_block_height: Some(height), ..s },
        Currency::Btc => AppStatus { btc_block_height: Some(height), ..s },
    }
}

/// Watermark monotonicity: advancing one chain's watermark to a height
/// no smaller than the recorded one never makes either chain's recorded
/// height decrease.
pub proof fn lemma_watermark_monotone(s: AppStatus, currency: Currency, height: u64)
    requires
        s.spec_block_height(currency) matches Some(w) ==> w <= height,
    ensures
        spec_watermark_update(s, currency, height).spec_block_height(currency) == Some(height),
        forall|c: Currency|
            #![auto]
            s.spec_block_height(c) is Some ==> spec_watermark_update(
                s,
                currency,
                height,
            ).spec_block_height(c) is Some && spec_watermark_update(
                s,
                currency,
                height,
            ).spec_block_height(c)->Some_0 >= s.spec_block_height(c)->Some_0,
{
}

} // verus!
