//! Opening a channel: what is asked of a request before the node is called,
//! and what is made of the node's answer.

use crate::encoding::hex_decode;
use crate::encoding::hex_decoded;
use crate::encoding::hex_encode;
use crate::encoding::hex_encoded;
use crate::encoding::reversed;
use crate::MAX_SEND_AMOUNT;
use vstd::prelude::*;

verus! {

/// A request to open a channel to a node.
#[derive(Clone)]
pub struct ChannelRequest {
    pub capacity: i64,
    pub push_amount: i64,
    pub pubkey: String,
    pub host: Option<String>,
}

/// The funding transaction of the channel that was opened.
#[derive(Clone)]
pub struct ChannelResponse {
    pub txid: String,
}

/// Why no channel was opened.
#[derive(Clone, Copy, Debug, PartialEq, Eq, Structural)]
pub enum ChannelError {
    /// The requester has drawn too much within the last day.
    TooManyPayments,
    /// The capacity is above the most that one request may move.
    CapacityTooLarge,
    /// The amount to push is negative.
    NegativePush,
    /// The amount to push is above the capacity.
    PushExceedsCapacity,
    /// The node's key is not hexadecimal.
    InvalidPubkey,
    /// The node named no funding transaction.
    NoFundingTxid,
    /// The node's funding transaction id is not hexadecimal.
    InvalidFundingTxid,
}

impl ChannelError {
    /// The words for the requester.
    pub fn message(&self) -> (text: &'static str)
        ensures
            text@ == match *self {
                ChannelError::TooManyPayments => "Too many payments"@,
                ChannelError::CapacityTooLarge => "max capacity is 1,000,000"@,
                ChannelError::NegativePush => "push_amount must be positive"@,
                ChannelError::PushExceedsCapacity => "push_amount must be less than or equal to capacity"@,
                ChannelError::InvalidPubkey => "invalid pubkey"@,
                ChannelError::NoFundingTxid => "failed to open channel"@,
                ChannelError::InvalidFundingTxid => "invalid funding txid"@,
            },
    {
        match self {
            ChannelError::TooManyPayments => "Too many payments",
            ChannelError::CapacityTooLarge => "max capacity is 1,000,000",
            ChannelError::NegativePush => "push_amount must be positive",
            ChannelError::PushExceedsCapacity => "push_amount must be less than or equal to capacity",
            ChannelError::InvalidPubkey => "invalid pubkey",
            ChannelError::NoFundingTxid => "failed to open channel",
            ChannelError::InvalidFundingTxid => "invalid funding txid",
        }
    }
}

/// What the node is asked once a request has passed.
pub struct OpenChannel {
    pub node_pubkey: Vec<u8>,
    pub local_funding_amount: i64,
    pub push_sat: i64,
}

/// The funding transaction id as the node gives it: as bytes, or as
/// hexadecimal text.
pub enum FundingTxid {
    Bytes(Vec<u8>),
    Str(String),
}

/// The first fault of a request, in the order in which they are looked for:
/// the admission guard's verdict, the capacity, the amount to push, the key.
pub open spec fn request_fault(
    admission_rejected: bool,
    capacity: i64,
    push_amount: i64,
    pubkey: Seq<char>,
) -> Option<ChannelError> {
    if admission_rejected {
        Some(ChannelError::TooManyPayments)
    } else if capacity > MAX_SEND_AMOUNT {
        Some(ChannelError::CapacityTooLarge)
    } else if push_amount < 0 {
        Some(ChannelError::NegativePush)
    } else if push_amount > capacity {
        Some(ChannelError::PushExceedsCapacity)
    } else if hex_decoded(pubkey) is None {
        Some(ChannelError::InvalidPubkey)
    } else {
        None
    }
}

/// Decides whether a channel may be opened. `admission_rejected` is what the
/// admission guard said of the requester. A request that passes gives what
/// the node is to be asked: the key as bytes, and the amounts as they came.
pub fn open_channel_order(admission_rejected: bool, payload: &ChannelRequest) -> (order: Result<
    OpenChannel,
    ChannelError,
>)
    ensures
        match order {
            Ok(o) => {
                &&& request_fault(
                    admission_rejected,
                    payload.capacity,
                    payload.push_amount,
                    payload.pubkey@,
                ) is None
                &&& Some(o.node_pubkey@) == hex_decoded(payload.pubkey@)
                &&& o.local_funding_amount == payload.capacity
                &&& o.push_sat == payload.push_amount
                &&& 0 <= o.push_sat <= o.local_funding_amount <= MAX_SEND_AMOUNT
            },
            Err(e) => request_fault(
                admission_rejected,
                payload.capacity,
                payload.push_amount,
                payload.pubkey@,
            ) == Some(e),
        },
{
    if admission_rejected {
        return Err(ChannelError::TooManyPayments);
    }
    if payload.capacity > MAX_SEND_AMOUNT as i64 {
        return Err(ChannelError::CapacityTooLarge);
    }
    if payload.push_amount < 0 {
        return Err(ChannelError::NegativePush);
    }
    if payload.push_amount > payload.capacity {
        return Err(ChannelError::PushExceedsCapacity);
    }
    match hex_decode(payload.pubkey.as_str()) {
        Some(node_pubkey) => Ok(
            OpenChannel {
                node_pubkey,
                local_funding_amount: payload.capacity,
                push_sat: payload.push_amount,
            },
        ),
        None => Err(ChannelError::InvalidPubkey),
    }
}

/// Whether the node is to be connected to first: where the request names a
/// host and none of the node's peers has the requested key.
pub fn needs_connect(payload: &ChannelRequest, peers: &Vec<String>) -> (connect: bool)
    ensures
        connect == (payload.host is Some && forall|i: int|
            0 <= i < peers@.len() ==> (#[trigger] peers@[i])@ != payload.pubkey@),
{
    if payload.host.is_none() {
        return false;
    }
    let mut i: usize = 0;
    while i < peers.len()
        invariant
            i <= peers.len(),
            forall|j: int| 0 <= j < i ==> (#[trigger] peers@[j])@ != payload.pubkey@,
        decreases peers.len() - i,
    {
        if peers[i] == payload.pubkey {
            return false;
        }
        i = i + 1;
    }
    true
}

/// The id of the funding transaction as it is shown: the node's bytes in the
/// opposite order, in hexadecimal. None where the node named no transaction
/// or its text is not hexadecimal.
pub open spec fn shown_txid(funding: Option<FundingTxid>) -> Option<Seq<char>> {
    match funding {
        Some(FundingTxid::Bytes(bytes)) => Some(hex_encoded(bytes@.reverse())),
        Some(FundingTxid::Str(text)) => match hex_decoded(text@) {
            Some(bytes) => Some(hex_encoded(bytes.reverse())),
            None => None,
        },
        None => None,
    }
}

/// Makes the id of the funding transaction from the node's answer.
pub fn funding_txid(funding: Option<FundingTxid>) -> (txid: Result<String, ChannelError>)
    ensures
        match txid {
            Ok(t) => shown_txid(funding) == Some(t@),
            Err(e) => shown_txid(funding) is None && e == (if funding is None {
                ChannelError::NoFundingTxid
            } else {
                ChannelError::InvalidFundingTxid
            }),
        },
{
    match funding {
        Some(FundingTxid::Bytes(bytes)) => Ok(hex_encode(&reversed(&bytes))),
        Some(FundingTxid::Str(text)) => match hex_decode(text.as_str()) {
            Some(bytes) => Ok(hex_encode(&reversed(&bytes))),
            None => Err(ChannelError::InvalidFundingTxid),
        },
        None => Err(ChannelError::NoFundingTxid),
    }
}

/// What an opened channel counts against its requester: its capacity.
pub fn channel_spend(order: &OpenChannel) -> (amount: u64)
    requires
        order.local_funding_amount >= 0,
    ensures
        amount == order.local_funding_amount,
{
    order.local_funding_amount as u64
}

} // verus!
