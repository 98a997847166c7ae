//! Core engine of a cryptocurrency payment acceptance service.
//!
//! Merchants ("stores") present invoices ("payments") bound to a derived
//! receiving address. The engine watches a chain node, detects payment,
//! waits for confirmations, and forwards the received funds ("payout") to
//! the store's withdrawal address. This crate holds the verified core:
//! the data model, the block processor, the poller and monitor state
//! machines, the payout construction, and the JSON-RPC codecs. The
//! process shell (HTTP, database, scheduling) lives outside and calls in
//! with plain values.

pub mod bitcoin;
pub mod btc_processor;
pub mod domain;
pub mod eth_processor;
pub mod ethereum;
pub mod hash;
pub mod ledger;
pub mod model;
pub mod monitor;
pub mod payouter;
pub mod poller;
pub mod quantity;
pub mod rpc;
