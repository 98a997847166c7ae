//! Scans for payout rows whose confirmation height has been reached and
//! claims each one exactly once before it is handed to the payouter.

use vstd::prelude::*;

use crate::domain::{Currency, PayoutAction, PayoutStatus};
use crate::ledger::Ledger;
use crate::model::Payout;

verus! {

/// Whether a payout row is due for dispatch: a forwarding row, still
/// `Pending`, on this chain, with its confirmation height reached by the
/// watermark.
pub open spec fn spec_due(p: Payout, currency: Currency, watermark: u64) -> bool {
    &&& p.status == PayoutStatus::Pending
    &&& p.action == PayoutAction::Payout
    &&& p.currency == currency
    &&& p.block_height_required <= watermark
}

/// The due payout rows at or after `from`, in table order.
pub open spec fn spec_due_payouts(
    payouts: Seq<Payout>,
    currency: Currency,
    watermark: u64,
    from: int,
) -> Seq<Payout>
    decreases payouts.len() - from,
{
    if from < 0 || from >= payouts.len() {
        Seq::empty()
    } else if spec_due(payouts[from], currency, watermark) {
        seq![payouts[from]] + spec_due_payouts(payouts, currency, watermark, from + 1)
    } else {
        spec_due_payouts(payouts, currency, watermark, from + 1)
    }
}

/// The payout rows confirmed at the given watermark: `Pending` rows of
/// this chain whose required height has been reached, in table order.
pub fn find_all_confirmed(led: &Ledger, currency: Currency, watermark: u64) -> (r: Vec<Payout>)
    ensures
        r@ == spec_due_payouts(led.payouts@, currency, watermark, 0),
{
    let mut out: Vec<Payout> = Vec::new();
    let n = led.payouts.len();
    for j in 0..n
        invariant
            n == led.payouts@.len(),
            spec_due_payouts(led.payouts@, currency, watermark, 0) == out@ + spec_due_payouts(
                led.payouts@,
                currency,
                watermark,
                j as int,
            ),
    {
        let p = led.payouts[j];
        if p.status == PayoutStatus::Pending && p.action == PayoutAction::Payout && p.currency
            == currency && p.block_height_required <= watermark {
            out.push(p);
            proof {
                assert(out@.drop_last().push(p) =~= out@);
                assert(out@.drop_last() + (seq![p] + spec_due_payouts(
                    led.payouts@,
                    currency,
                    watermark,
                    j + 1,
                )) =~= out@ + spec_due_payouts(led.payouts@, currency, watermark, j + 1));
            }
        }
    }
    proof {
        assert(spec_due_payouts(led.payouts@, currency, watermark, n as int) =~= Seq::<
            Payout,
        >::empty());
        assert(out@ + Seq::<Payout>::empty() =~= out@);
    }
    out
}

/// A payout row after a successful claim: `Pending` replaced by
/// `Processing`, everything else kept.
pub open spec fn spec_claimed(p: Payout) -> Payout {
    Payout { status: PayoutStatus::Processing, ..p }
}

/// Claims one payout row for dispatch: the conditional
/// `Pending -> Processing` update, keyed on the row still being
/// `Pending`. Returns whether this caller won the claim; the payouter is
/// invoked only on `true`.
pub fn claim_payout(led: &mut Ledger, payout_id: u64) -> (r: bool)
    requires
        old(led).wf(),
    ensures
        final(led).wf(),
        final(led).payments@ == old(led).payments@,
        final(led).btc_transactions@ == old(led).btc_transactions@,
        final(led).eth_transactions@ == old(led).eth_transactions@,
        final(led).status == old(led).status,
        final(led).next_payout_id == old(led).next_payout_id,
        r == exists|i: int|
            0 <= i < old(led).payouts@.len() && (#[trigger] old(led).payouts@[i]).id == payout_id
                && old(led).payouts@[i].status == PayoutStatus::Pending,
        r ==> exists|i: int|
            0 <= i < old(led).payouts@.len() && (#[trigger] old(led).payouts@[i]).id == payout_id
                && old(led).payouts@[i].status == PayoutStatus::Pending && final(led).payouts@
                == old(led).payouts@.update(i, spec_claimed(old(led).payouts@[i])),
        !r ==> final(led).payouts@ == old(led).payouts@,
{
    let n = led.payouts.len();
    for j in 0..n
        invariant
            old(led).wf(),
            n == led.payouts@.len(),
            *led == *old(led),
            forall|k: int|
                0 <= k < j ==> !((#[trigger] led.payouts@[k]).id == payout_id
                    && led.payouts@[k].status == PayoutStatus::Pending),
    {
        let p = led.payouts[j];
        if p.id == payout_id && p.status == PayoutStatus::Pending {
            let claimed = Payout {
                id: p.id,
                status: PayoutStatus::Processing,
                action: p.action,
                store_id: p.store_id,
                payment_id: p.payment_id,
                currency: p.currency,
                block_height_required: p.block_height_required,
                transaction_hash: p.transaction_hash,
                created_at: p.created_at,
            };
            led.payouts[j] = claimed;
            proof {
                let pre = *old(led);
                assert(led.payouts@ == pre.payouts@.update(j as int, spec_claimed(
                    pre.payouts@[j as int],
                )));
                assert forall|a: int| 0 <= a < led.payouts@.len() implies (
                #[trigger] led.payouts@[a]).id == pre.payouts@[a].id && led.payouts@[a].action
                    == pre.payouts@[a].action && led.payouts@[a].payment_id
                    == pre.payouts@[a].payment_id by {
                    if a != j {
                        assert(led.payouts@[a] == pre.payouts@[a]);
                    }
                }
            }
            return true;
        }
    }
    false
}

/// Exactly-once dispatch: after one monitor claims a payout row, no row
/// with that id is still `Pending`, so any further claim of the same id
/// returns `false` and the payouter runs once per row.
pub proof fn lemma_claim_exactly_once(pre: Ledger, post: Ledger, payout_id: u64, i: int)
    requires
        pre.wf(),
        0 <= i < pre.payouts@.len(),
        pre.payouts@[i].id == payout_id,
        pre.payouts@[i].status == PayoutStatus::Pending,
        post.payouts@ == pre.payouts@.update(i, spec_claimed(pre.payouts@[i])),
    ensures
        forall|j: int|
            0 <= j < post.payouts@.len() && (#[trigger] post.payouts@[j]).id == payout_id
                ==> post.payouts@[j].status != PayoutStatus::Pending,
{
    assert forall|j: int|
        0 <= j < post.payouts@.len() && (#[trigger] post.payouts@[j]).id == payout_id implies post.payouts@[j].status
        != PayoutStatus::Pending by {
        if j != i {
            assert(pre.payouts@[j].id == payout_id && pre.payouts@[i].id == payout_id);
        }
    }
}

/// The payout row after the payouter finished: `Done` with the broadcast
/// hash on success, `Failed` without one otherwise.
pub open spec fn spec_finished(p: Payout, outcome: Option<crate::hash::H256>) -> Payout {
    match outcome {
        Some(h) => Payout { status: PayoutStatus::Done, transaction_hash: Some(h), ..p },
        None => Payout { status: PayoutStatus::Failed, ..p },
    }
}

/// Records the payouter's outcome on a claimed row: `Done` with the
/// broadcast hash, or `Failed`. Returns whether a row with the id was
/// found.
pub fn finish_payout(led: &mut Ledger, payout_id: u64, outcome: Option<crate::hash::H256>) -> (r:
    bool)
    requires
        old(led).wf(),
    ensures
        final(led).wf(),
        final(led).payments@ == old(led).payments@,
        final(led).btc_transactions@ == old(led).btc_transactions@,
        final(led).eth_transactions@ == old(led).eth_transactions@,
        final(led).status == old(led).status,
        final(led).next_payout_id == old(led).next_payout_id,
        r == exists|i: int|
            0 <= i < old(led).payouts@.len() && (#[trigger] old(led).payouts@[i]).id == payout_id,
        r ==> exists|i: int|
            0 <= i < old(led).payouts@.len() && (#[trigger] old(led).payouts@[i]).id == payout_id
                && final(led).payouts@ == old(led).payouts@.update(i, spec_finished(
                old(led).payouts@[i],
                outcome,
            )),
        !r ==> final(led).payouts@ == old(led).payouts@,
{
    let n = led.payouts.len();
    for j in 0..n
        invariant
            old(led).wf(),
            n == led.payouts@.len(),
            *led == *old(led),
            forall|k: int| 0 <= k < j ==> (#[trigger] led.payouts@[k]).id != payout_id,
    {
        let p = led.payouts[j];
        if p.id == payout_id {
            let finished = match outcome {
                Some(h) => Payout {
                    id: p.id,
                    status: PayoutStatus::Done,
                    action: p.action,
                    store_id: p.store_id,
                    payment_id: p.payment_id,
                    currency: p.currency,
                    block_height_required: p.block_height_required,
                    transaction_hash: Some(h),
                    created_at: p.created_at,
                },
                None => Payout {
                    id: p.id,
                    status: PayoutStatus::Failed,
                    action: p.action,
                    store_id: p.store_id,
                    payment_id: p.payment_id,
                    currency: p.currency,
                    block_height_required: p.block_height_required,
                    transaction_hash: p.transaction_hash,
                    created_at: p.created_at,
                },
            };
            led.payouts[j] = finished;
            proof {
                let pre = *old(led);
                assert(led.payouts@ == pre.payouts@.update(j as int, spec_finished(
                    pre.payouts@[j as int],
                    outcome,
                )));
                assert forall|a: int| 0 <= a < led.payouts@.len() implies (
                #[trigger] led.payouts@[a]).id == pre.payouts@[a].id && led.payouts@[a].action
                    == pre.payouts@[a].action && led.payouts@[a].payment_id
                    == pre.payouts@[a].payment_id by {
                    if a != j {
                        assert(led.payouts@[a] == pre.payouts@[a]);
                    }
                }
            }
            return true;
        }
    }
    false
}

} // verus!
