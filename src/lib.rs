//! Reconciliation and sync coordination core of a self-custodial Spark wallet.
//!
//! - `model`: the raw ledger records and the canonical payment shape.
//! - `htlc`: the HTLC state of Lightning transfers.
//! - `reconcile`: folding a raw transfer into a payment.
//! - `sync_coordinator`: the decisions of the coalescing sync scheduler.
//! - `claim`: the pool of slots that bounds concurrent claims.
//! - `http`, `nostr`, `invoice_paid`: HTTP errors, Nostr errors, and paid
//!   invoices of the LNURL server.
use vstd::prelude::*;

pub mod model;
pub mod htlc;
pub mod reconcile;
pub mod sync_coordinator;
pub mod claim;
pub mod http;
pub mod nostr;
pub mod invoice_paid;

verus! {

} // verus!
