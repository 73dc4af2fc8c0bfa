//! Sending coins on chain: what is asked of a request before the wallet is
//! called.

use crate::MAX_SEND_AMOUNT;
use vstd::prelude::*;
use vstd::string::StringExecFns;

verus! {

/// A request to send coins to an address.
#[derive(Clone)]
pub struct OnchainRequest {
    pub sats: Option<u64>,
    pub address: String,
}

/// The transaction that paid, and the address it paid to.
#[derive(Clone)]
pub struct OnchainResponse {
    pub txid: String,
    pub address: String,
}

/// The networks that an address can belong to.
#[derive(Clone, Copy, Debug, PartialEq, Eq, Structural)]
pub enum Network {
    Bitcoin,
    Testnet,
    Signet,
    Regtest,
}

/// The name of the network that the faucet runs on, as the configuration
/// gives it.
pub open spec fn network_named(name: Seq<char>) -> Option<Network> {
    if name == "signet"@ {
        Some(Network::Signet)
    } else if name == "testnet"@ {
        Some(Network::Testnet)
    } else if name == "regtest"@ {
        Some(Network::Regtest)
    } else {
        None
    }
}

/// Reads the name of the network that the faucet runs on. The faucet gives
/// out test coins only: the main network has no name here.
pub fn network_from_name(name: &String) -> (network: Option<Network>)
    ensures
        network == network_named(name@),
{
    if *name == String::from_str("signet") {
        Some(Network::Signet)
    } else if *name == String::from_str("testnet") {
        Some(Network::Testnet)
    } else if *name == String::from_str("regtest") {
        Some(Network::Regtest)
    } else {
        None
    }
}

/// Why a text is no address to send to.
#[derive(Clone, Copy, Debug, PartialEq, Eq, Structural)]
pub enum AddressFault {
    /// The text is no address.
    Unparsable,
    /// The address belongs to another network.
    WrongNetwork,
}

/// Why no coins were sent.
#[derive(Clone, Copy, Debug, PartialEq, Eq, Structural)]
pub enum OnchainError {
    /// The text is no address.
    InvalidAddress,
    /// The requester has drawn too much within the last day.
    TooManyPayments,
    /// The address belongs to another network.
    WrongNetwork,
    /// Neither the address nor the request names an amount.
    InvalidAmount,
    /// The amount is above the most that one request may move.
    AmountTooLarge,
}

impl OnchainError {
    /// The words for the requester.
    pub fn message(&self) -> (text: &'static str)
        ensures
            text@ == match *self {
                OnchainError::InvalidAddress => "invalid address"@,
                OnchainError::TooManyPayments => "Too many payments"@,
                OnchainError::WrongNetwork => "invalid address, wrong network"@,
                OnchainError::InvalidAmount => "invalid amount"@,
                OnchainError::AmountTooLarge => "max amount is 1,000,000"@,
            },
    {
        match self {
            OnchainError::InvalidAddress => "invalid address",
            OnchainError::TooManyPayments => "Too many payments",
            OnchainError::WrongNetwork => "invalid address, wrong network",
            OnchainError::InvalidAmount => "invalid amount",
            OnchainError::AmountTooLarge => "max amount is 1,000,000",
        }
    }
}

/// What the wallet is asked once a request has passed.
pub struct SendCoins {
    pub addr: String,
    pub amount: i64,
    pub spend_unconfirmed: bool,
    pub sat_per_vbyte: u64,
}

/// What reading `text` as an address of `network` gives: the address in its
/// canonical text, or why there is none.
pub uninterp spec fn address_read(text: Seq<char>, network: Network) -> Result<
    Seq<char>,
    AddressFault,
>;

/// `bitcoin::Address::from_str`, `Address::require_network` and the
/// address's `to_string`: reads a text as an address, holds it to a network,
/// and writes it out again.
#[verifier::external_body]
fn read_address(text: &str, network: Network) -> (address: Result<String, AddressFault>)
    ensures
        match address {
            Ok(a) => address_read(text@, network) == Ok::<Seq<char>, AddressFault>(a@),
            Err(e) => address_read(text@, network) == Err::<Seq<char>, AddressFault>(e),
        },
{
    let required = match network {
        Network::Bitcoin => bitcoin::Network::Bitcoin,
        Network::Testnet => bitcoin::Network::Testnet,
        Network::Signet => bitcoin::Network::Signet,
        Network::Regtest => bitcoin::Network::Regtest,
    };
    match text.parse::<bitcoin::Address<bitcoin::address::NetworkUnchecked>>() {
        Err(_) => Err(AddressFault::Unparsable),
        Ok(unchecked) => match unchecked.require_network(required) {
            Ok(address) => Ok(address.to_string()),
            Err(_) => Err(AddressFault::WrongNetwork),
        },
    }
}

/// The amount to send: the one that the address text named, else the one
/// that the request named.
pub open spec fn requested_amount(uri_amount: Option<u64>, sats: Option<u64>) -> Option<u64> {
    match uri_amount {
        Some(a) => Some(a),
        None => sats,
    }
}

/// The first fault of a request, in the order in which they are looked for:
/// a text that is no address, the admission guard's verdict, an address of
/// another network, a missing amount, an amount above the cap.
pub open spec fn send_fault(
    address: Result<Seq<char>, AddressFault>,
    admission_rejected: bool,
    amount: Option<u64>,
) -> Option<OnchainError> {
    if address == Err::<Seq<char>, AddressFault>(AddressFault::Unparsable) {
        Some(OnchainError::InvalidAddress)
    } else if admission_rejected {
        Some(OnchainError::TooManyPayments)
    } else if address is Err {
        Some(OnchainError::WrongNetwork)
    } else if amount is None {
        Some(OnchainError::InvalidAmount)
    } else if amount.unwrap() > MAX_SEND_AMOUNT {
        Some(OnchainError::AmountTooLarge)
    } else {
        None
    }
}

/// An address as it was read, as plain values.
pub open spec fn address_view(address: Result<String, AddressFault>) -> Result<
    Seq<char>,
    AddressFault,
> {
    match address {
        Ok(a) => Ok(a@),
        Err(e) => Err(e),
    }
}

/// Decides whether coins may be sent. `address` is what reading the
/// destination gave, `admission_rejected` what the admission guard said of
/// the requester, `uri_amount` the amount that the destination text named. A
/// request that passes gives what the wallet is to be asked: the address, the
/// amount, unconfirmed coins allowed, one satoshi per virtual byte.
pub fn pay_onchain_order(
    address: Result<String, AddressFault>,
    admission_rejected: bool,
    uri_amount: Option<u64>,
    sats: Option<u64>,
) -> (order: Result<SendCoins, OnchainError>)
    ensures
        match order {
            Ok(o) => {
                &&& send_fault(
                    address_view(address),
                    admission_rejected,
                    requested_amount(uri_amount, sats),
                ) is None
                &&& Ok::<Seq<char>, AddressFault>(o.addr@) == address_view(address)
                &&& Some(o.amount as u64) == requested_amount(uri_amount, sats)
                &&& 0 <= o.amount <= MAX_SEND_AMOUNT
                &&& o.spend_unconfirmed
                &&& o.sat_per_vbyte == 1
            },
            Err(e) => send_fault(
                address_view(address),
                admission_rejected,
                requested_amount(uri_amount, sats),
            ) == Some(e),
        },
{
    let addr = match address {
        Ok(addr) => {
            if admission_rejected {
                return Err(OnchainError::TooManyPayments);
            }
            addr
        },
        Err(AddressFault::Unparsable) => {
            return Err(OnchainError::InvalidAddress);
        },
        Err(AddressFault::WrongNetwork) => {
            if admission_rejected {
                return Err(OnchainError::TooManyPayments);
            }
            return Err(OnchainError::WrongNetwork);
        },
    };
    let amount = match uri_amount {
        Some(a) => Some(a),
        None => sats,
    };
    match amount {
        None => Err(OnchainError::InvalidAmount),
        Some(amount) => {
            if amount > MAX_SEND_AMOUNT {
                Err(OnchainError::AmountTooLarge)
            } else {
                Ok(SendCoins { addr, amount: amount as i64, spend_unconfirmed: true, sat_per_vbyte: 1 })
            }
        },
    }
}

/// Reads the destination as an address of `network` and decides whether
/// coins may be sent to it.
pub fn pay_onchain(
    destination: &str,
    network: Network,
    admission_rejected: bool,
    uri_amount: Option<u64>,
    sats: Option<u64>,
) -> (order: Result<SendCoins, OnchainError>)
    ensures
        match order {
            Ok(o) => {
                &&& send_fault(
                    address_read(destination@, network),
                    admission_rejected,
                    requested_amount(uri_amount, sats),
                ) is None
                &&& Ok::<Seq<char>, AddressFault>(o.addr@) == address_read(destination@, network)
                &&& Some(o.amount as u64) == requested_amount(uri_amount, sats)
                &&& 0 <= o.amount <= MAX_SEND_AMOUNT
                &&& o.spend_unconfirmed
                &&& o.sat_per_vbyte == 1
            },
            Err(e) => send_fault(
                address_read(destination@, network),
                admission_rejected,
                requested_amount(uri_amount, sats),
            ) == Some(e),
        },
{
    let address = read_address(destination, network);
    pay_onchain_order(address, admission_rejected, uri_amount, sats)
}

} // verus!
