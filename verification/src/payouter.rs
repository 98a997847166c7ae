//! Builds the outbound transaction for a confirmed payment: key
//! derivation path, value equation, and the payment's completion once
//! the broadcast hash is known.

use vstd::prelude::*;

use crate::domain::PaymentStatus;
use crate::hash::H256;
use crate::ledger::Ledger;
use crate::model::{Payment, Store, Timestamp};
use crate::quantity::{dec_string, dec_string_padded, spec_dec_digits, spec_dec_padded};

verus! {

/// Gas allowance of a plain value transfer.
pub const PAYOUT_GAS: u64 = 21000;

/// The derivation path of one payment's signing key: the store's base
/// path extended by the payment's creation second and its sub-second
/// nanoseconds, nine digits zero-padded, as the integer-nanosecond
/// rendering splits them.
pub open spec fn spec_derivation_path(base: Seq<char>, ts: Timestamp) -> Seq<char> {
    base + "/"@ + spec_dec_digits(ts.secs as nat) + "/"@ + spec_dec_padded(ts.nanos as nat, 9)
}

/// Extends the store's base path with the payment's creation instant.
pub fn derivation_path(base: &str, ts: &Timestamp) -> (r: String)
    ensures
        r@ == spec_derivation_path(base@, *ts),
{
    let mut s = String::from_str(base);
    s.append("/");
    let secs = dec_string(ts.secs);
    s.append(secs.as_str());
    s.append("/");
    let nanos = dec_string_padded(ts.nanos as u64, 9);
    s.append(nanos.as_str());
    s
}

/// The value of the outbound transfer: the incoming value less the gas
/// cost, or nothing where gas would consume the whole amount (the payout
/// is then not attempted and the payment stays `Paid`).
pub fn payout_value(incoming: u128, gas_price: u128) -> (r: Option<u128>)
    ensures
        r is Some <==> incoming > gas_price * PAYOUT_GAS,
        r matches Some(v) ==> v == incoming - gas_price * PAYOUT_GAS && v > 0,
{
    match gas_price.checked_mul(PAYOUT_GAS as u128) {
        Some(fee) => {
            if incoming > fee {
                Some(incoming - fee)
            } else {
                None
            }
        },
        None => {
            proof {
                assert(gas_price * PAYOUT_GAS > u128::MAX >= incoming);
            }
            None
        },
    }
}

/// An unsigned Ethereum value transfer, ready for signing.
pub struct UnsignedTransaction {
    pub nonce: u64,
    pub gas_price: u128,
    pub gas: u64,
    /// Recipient, `0x`-prefixed hex.
    pub to: String,
    /// Transferred value in wei.
    pub value: u128,
    pub data: Vec<u8>,
}

/// Why a payout could not be prepared.
#[derive(Clone, Copy, PartialEq, Eq, Structural, Debug)]
pub enum PayouterError {
    /// The store declares no payout address for the chain.
    NoPayoutAddress,
    /// Gas would consume the entire incoming value.
    ValueTooLow,
}

/// Builds the outbound transaction for a confirmed payment, and the
/// derivation path of the key that must sign it: pay the store's first
/// declared payout address the incoming value less gas.
pub fn prepare_payout(
    payment: &Payment,
    store: &Store,
    incoming_value: u128,
    gas_price: u128,
    nonce: u64,
) -> (r: Result<(UnsignedTransaction, String), PayouterError>)
    ensures
        r is Ok <==> (store.eth_payout_addresses matches Some(a) && a@.len() > 0)
            && incoming_value > gas_price * PAYOUT_GAS,
        r matches Ok((tx, path)) ==> {
            &&& tx.nonce == nonce
            &&& tx.gas_price == gas_price
            &&& tx.gas == PAYOUT_GAS
            &&& tx.to@ == store.eth_payout_addresses->Some_0@[0]@
            &&& tx.value == incoming_value - gas_price * PAYOUT_GAS
            &&& tx.value > 0
            &&& tx.data@ == Seq::<u8>::empty()
            &&& path@ == spec_derivation_path(store.hd_path@, payment.created_at)
        },
        r == Err::<(UnsignedTransaction, String), _>(PayouterError::NoPayoutAddress) <==> !(
        store.eth_payout_addresses matches Some(a) && a@.len() > 0),
        r == Err::<(UnsignedTransaction, String), _>(PayouterError::ValueTooLow) <==> (
        store.eth_payout_addresses matches Some(a) && a@.len() > 0) && incoming_value <= gas_price
            * PAYOUT_GAS,
{
    let to: String = match &store.eth_payout_addresses {
        Some(addresses) => {
            if addresses.len() > 0 {
                addresses[0].clone()
            } else {
                return Err(PayouterError::NoPayoutAddress);
            }
        },
        None => {
            return Err(PayouterError::NoPayoutAddress);
        },
    };
    let value = match payout_value(incoming_value, gas_price) {
        Some(v) => v,
        None => {
            return Err(PayouterError::ValueTooLow);
        },
    };
    let path = derivation_path(store.hd_path.as_str(), &payment.created_at);
    let tx = UnsignedTransaction {
        nonce,
        gas_price,
        gas: PAYOUT_GAS,
        to,
        value,
        data: Vec::new(),
    };
    Ok((tx, path))
}

impl Ledger {
    /// Completes a paid-out payment: records the broadcast hash and
    /// moves `Paid` to `PaidOut`. Returns whether a payment with the id
    /// was found in `Paid`; any other payment is left untouched.
    pub fn mark_paid_out(&mut self, payment_id: u64, hash: H256) -> (r: bool)
        requires
            old(self).wf(),
        ensures
            final(self).wf(),
            final(self).payouts@ == old(self).payouts@,
            final(self).btc_transactions@ == old(self).btc_transactions@,
            final(self).eth_transactions@ == old(self).eth_transactions@,
            final(self).status == old(self).status,
            final(self).next_payout_id == old(self).next_payout_id,
            r == exists|i: int|
                0 <= i < old(self).payments@.len() && (#[trigger] old(self).payments@[i]).id
                    == payment_id && old(self).payments@[i].status == PaymentStatus::Paid,
            r ==> exists|i: int|
                0 <= i < old(self).payments@.len() && (#[trigger] old(self).payments@[i]).id
                    == payment_id && old(self).payments@[i].status == PaymentStatus::Paid
                    && final(self).payments@ == old(self).payments@.update(i, spec_paid_out(
                    old(self).payments@[i],
                    hash,
                )),
            !r ==> final(self).payments@ == old(self).payments@,
    {
        let n = self.payments.len();
        for j in 0..n
            invariant
                old(self).wf(),
                n == self.payments@.len(),
                *self == *old(self),
                forall|k: int|
                    0 <= k < j ==> !((#[trigger] self.payments@[k]).id == payment_id
                        && self.payments@[k].status == PaymentStatus::Paid),
        {
            let found = self.payments[j].id == payment_id && self.payments[j].status
                == PaymentStatus::Paid;
            if found {
                let p = &self.payments[j];
                let updated = Payment {
                    id: p.id,
                    store_id: p.store_id,
                    currency: p.currency,
                    address: p.address.clone(),
                    price: p.price,
                    amount_paid: p.amount_paid,
                    status: PaymentStatus::PaidOut,
                    index: p.index,
                    confirmations_required: p.confirmations_required,
                    block_height_required: p.block_height_required,
                    transaction_hash: p.transaction_hash,
                    payout_transaction_hash: Some(hash),
                    created_at: p.created_at,
                    expires_at: p.expires_at,
                };
                self.payments[j] = updated;
                proof {
                    let pre = *old(self);
                    assert(self.payments@ == pre.payments@.update(j as int, spec_paid_out(
                        pre.payments@[j as int],
                        hash,
                    )));
                    assert forall|a: int| 0 <= a < self.payments@.len() implies (
                    #[trigger] self.payments@[a]).id == pre.payments@[a].id && self.payments@[a].wf()
                        == pre.payments@[a].wf() && (pre.payments@[a].status
                        != PaymentStatus::Pending ==> self.payments@[a].status
                        != PaymentStatus::Pending) by {
                        if a != j {
                            assert(self.payments@[a] == pre.payments@[a]);
                        }
                    }
                }
                return true;
            }
        }
        false
    }
}

/// A payment after its payout broadcast: `PaidOut`, with the hash of the
/// outbound transaction.
pub open spec fn spec_paid_out(p: Payment, hash: H256) -> Payment {
    Payment { status: PaymentStatus::PaidOut, payout_transaction_hash: Some(hash), ..p }
}

} // verus!
