//! Admission control and payjoin settlement for a rate-limited bitcoin faucet.
//!
//! The library holds the decisions of the faucet: how much each requester has
//! drawn within the last day, whether a request is within policy, and how a
//! payjoin proposal moves from an untrusted payload to a signed transaction.
//! Node and wallet calls are left to the caller, which hands their results in
//! as plain values.

use vstd::prelude::*;

pub mod auth;
pub mod bolt11;
pub mod channel;
pub mod encoding;
pub mod lightning;
pub mod lnurlw;
pub mod nostr_dms;
pub mod onchain;
pub mod payjoin;
pub mod payments;
pub mod script;

verus! {

/// The largest amount, in satoshis, that a single request may move.
pub const MAX_SEND_AMOUNT: u64 = 1_000_000;

/// The amount, in satoshis, at which the combined spend of a requester's keys
/// closes the faucet to that requester.
pub const MAX_WINDOW_AMOUNT: u64 = 10_000_000;

} // verus!
