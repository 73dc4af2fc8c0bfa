//! Payjoin settlement on the receiver's side: the checks that an original
//! transaction must pass, the receiver's own contribution to it, and the way
//! to a signed transaction.
//!
//! The negotiation is a state machine. It never calls the node or the wallet
//! itself: it says what is to be asked next, and takes the answer as an event.
//! A stage is reached only through the stages before it, and a rejection is
//! final.

pub mod laws;
pub mod machine;
pub mod model;
pub mod transition;

pub use crate::payjoin::model::{
    Action, CandidateUtxo, Event, FUND_TARGET_CONF, LEASE_SECONDS, MIN_FEE_RATE_SAT_PER_KWU,
    OracleAnswer, OutPoint, PayjoinError, Proposal, ProposalInput, SelectionFailure, Stage,
    TxOut, UNSPENT_MAX_CONFS, UNSPENT_MIN_CONFS,
};
pub use crate::payjoin::machine::{
    Negotiation, TXID_LEN, candidate_utxo, candidates, check_scripts, lease_id, lookup,
};
use vstd::prelude::*;
use vstd::string::StringExecFns;

verus! {

/// A request for a payment link of an amount, in satoshis.
#[derive(Debug, Clone)]
pub struct Bip21Request {
    pub amount: i64,
}

/// The payment link.
#[derive(Debug, Clone)]
pub struct Bip21Response {
    pub bip21: String,
}

/// The amount of a payment link as an unsigned number of the same 64 bits.
pub open spec fn link_sats(amount: i64) -> int {
    if amount >= 0 {
        amount as int
    } else {
        amount + 0x1_0000_0000_0000_0000
    }
}

impl Bip21Request {
    /// The amount of the link in satoshis, as an unsigned number.
    pub fn sats(&self) -> (sats: u64)
        ensures
            sats == link_sats(self.amount),
    {
        if self.amount >= 0 {
            self.amount as u64
        } else {
            let below: i64 = self.amount - i64::MIN;
            below as u64 + 0x8000_0000_0000_0000
        }
    }
}

/// A payment link: the address link, then the amount in bitcoin, the invoice
/// and the payjoin endpoint on this host as its parameters.
pub open spec fn payment_link(
    address_uri: Seq<char>,
    amount_btc: Seq<char>,
    bolt11: Seq<char>,
    host: Seq<char>,
) -> Seq<char> {
    address_uri + "?amount="@ + amount_btc + "&invoice="@ + bolt11 + "&pj="@ + host
        + "/api/payjoin"@
}

/// Writes the payment link.
pub fn request_bip21(address_uri: &str, amount_btc: &str, bolt11: &str, host: &str) -> (link: String)
    ensures
        link@ == payment_link(address_uri@, amount_btc@, bolt11@, host@),
{
    let mut link = String::from_str(address_uri);
    link.append("?amount=");
    link.append(amount_btc);
    link.append("&invoice=");
    link.append(bolt11);
    link.append("&pj=");
    link.append(host);
    link.append("/api/payjoin");
    link
}

} // verus!
