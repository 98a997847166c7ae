//! The persistent entities the engine works on: stores, payments,
//! payouts, and the per-chain watermark row.
//!
//! Amounts are integers in the chain's smallest unit (satoshi for
//! Bitcoin, wei for Ethereum); instants are unix seconds, with a
//! nanosecond part where key derivation needs it. Row ids are plain
//! integers: the shell maps them to whatever key type its database uses.

use vstd::prelude::*;

use crate::domain::{Currency, PaymentStatus, PayoutAction, PayoutStatus};
use crate::hash::H256;

verus! {

/// An instant: unix seconds plus the nanosecond part below one second.
#[derive(Clone, Copy, PartialEq, Eq, Structural, Debug)]
pub struct Timestamp {
    pub secs: u64,
    pub nanos: u32,
}

impl Timestamp {
    /// The nanosecond part names a fraction of one second.
    pub open spec fn wf(&self) -> bool {
        self.nanos < 1_000_000_000
    }
}

/// A merchant account. Read-only to the engine; the stored seed and
/// derivation path feed payout key derivation.
pub struct Store {
    pub id: u64,
    pub owner_id: u64,
    pub mnemonic: String,
    pub hd_path: String,
    pub eth_payout_addresses: Option<Vec<String>>,
    pub eth_confirmations_required: Option<u32>,
    pub active: bool,
}

impl Store {
    /// Whether the store is configured to accept the given currency.
    /// Bitcoin acceptance is not offered: a store carries no Bitcoin
    /// payout configuration.
    pub fn can_accept(&self, currency: &Currency) -> (r: bool)
        ensures
            r == (*currency == Currency::Eth && self.eth_payout_addresses is Some
                && self.eth_confirmations_required is Some),
    {
        match currency {
            Currency::Btc => false,
            Currency::Eth => {
                self.eth_payout_addresses.is_some() && self.eth_confirmations_required.is_some()
            },
        }
    }
}

/// An invoice bound to a derived receiving address.
pub struct Payment {
    pub id: u64,
    pub store_id: u64,
    pub currency: Currency,
    /// The derived receiving address, in the chain's textual form
    /// (`0x`-prefixed hex for Ethereum).
    pub address: String,
    /// Asking price, in the chain's smallest unit.
    pub price: u128,
    /// What the chain has been seen to credit so far, smallest unit.
    pub amount_paid: Option<u128>,
    pub status: PaymentStatus,
    /// HD child index used to derive the receiving key.
    pub index: u32,
    pub confirmations_required: u32,
    /// Height at which the payment counts as final:
    /// first-match height + confirmations required - 1.
    pub block_height_required: Option<u64>,
    /// Hash of the incoming transaction that settled the price.
    pub transaction_hash: Option<H256>,
    /// Hash of the broadcast payout transaction, once paid out.
    pub payout_transaction_hash: Option<H256>,
    pub created_at: Timestamp,
    /// Unix seconds past which an unpaid payment expires.
    pub expires_at: u64,
}

impl Payment {
    /// Structural soundness: a confirmation depth of at least one, and a
    /// well-formed creation instant.
    pub open spec fn wf(&self) -> bool {
        &&& self.confirmations_required >= 1
        &&& self.created_at.wf()
    }
}

/// A scheduled outbound transfer: forward confirmed funds to the store,
/// or return them to the payer.
#[derive(Clone, Copy)]
pub struct Payout {
    pub id: u64,
    pub status: PayoutStatus,
    pub action: PayoutAction,
    pub store_id: u64,
    pub payment_id: u64,
    pub currency: Currency,
    pub block_height_required: u64,
    pub transaction_hash: Option<H256>,
    /// Unix seconds at which the row was created.
    pub created_at: u64,
}

/// The singleton watermark row: the highest block height fully processed
/// per chain.
#[derive(Clone, Copy, PartialEq, Eq, Structural, Debug)]
pub struct AppStatus {
    pub id: i16,
    pub eth_block_height: Option<u64>,
    pub btc_block_height: Option<u64>,
}

/// A partial update of the watermark row: `Some` replaces the field,
/// `None` leaves it alone.
#[derive(Clone, Copy, PartialEq, Eq, Structural, Debug)]
pub struct AppStatusPayload {
    pub id: i16,
    pub eth_block_height: Option<Option<u64>>,
    pub btc_block_height: Option<Option<u64>>,
}

/// The watermark row after a partial update.
pub open spec fn spec_apply_status(s: AppStatus, p: AppStatusPayload) -> AppStatus {
    AppStatus {
        id: s.id,
        eth_block_height: match p.eth_block_height {
            Some(h) => h,
            None => s.eth_block_height,
        },
        btc_block_height: match p.btc_block_height {
            Some(h) => h,
            None => s.btc_block_height,
        },
    }
}

impl AppStatus {
    /// The processed watermark for one chain.
    pub fn block_height(&self, currency: Currency) -> (r: Option<u64>)
        ensures
            r == self.spec_block_height(currency),
    {
        match currency {
            Currency::Btc => self.btc_block_height,
            Currency::Eth => self.eth_block_height,
        }
    }

    /// Spec view of `block_height`.
    pub open spec fn spec_block_height(&self, currency: Currency) -> Option<u64> {
        match currency {
            Currency::Btc => self.btc_block_height,
            Currency::Eth => self.eth_block_height,
        }
    }

    /// Applies a partial update, as persisting the payload over the row
    /// would.
    pub fn apply(&self, payload: &AppStatusPayload) -> (r: AppStatus)
        ensures
            r == spec_apply_status(*self, *payload),
    {
        AppStatus {
            id: self.id,
            eth_block_height: match payload.eth_block_height {
                Some(h) => h,
                None => self.eth_block_height,
            },
            btc_block_height: match payload.btc_block_height {
                Some(h) => h,
                None => self.btc_block_height,
            },
        }
    }
}

} // verus!
