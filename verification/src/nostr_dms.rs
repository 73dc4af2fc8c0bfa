//! Direct messages to the faucet: what a message asks for, and what is asked
//! of it before anything is paid.

use crate::auth::lowercase;
use crate::auth::lowercased;
use crate::MAX_SEND_AMOUNT;
use vstd::prelude::*;
use vstd::string::StringExecFns;

verus! {

/// The relays that the faucet listens on and tells payees of.
pub fn relays() -> (relays: Vec<&'static str>)
    ensures
        relays@.len() == 2,
        relays@[0]@ == "wss://relay.primal.net"@,
        relays@[1]@ == "wss://relay.damus.io"@,
{
    let mut relays: Vec<&'static str> = Vec::new();
    relays.push("wss://relay.primal.net");
    relays.push("wss://relay.damus.io");
    relays
}

/// How many payments a request to be spammed gets.
pub const SPAM_COUNT: u32 = 25;

/// The amount, in satoshis, that is sent to an address that names none.
pub const DEFAULT_ONCHAIN_AMOUNT: u64 = 100_000;

/// What a message asks for by its words.
#[derive(Clone, Copy, Debug, PartialEq, Eq, Structural)]
pub enum Command {
    /// One payment to the sender.
    Zap,
    /// Many payments to the sender.
    Spam,
    /// Nothing by its words: the message may still name a payee.
    Other,
}

/// Why a message was not served.
#[derive(Clone, Copy, Debug, PartialEq, Eq, Structural)]
pub enum DmError {
    /// The invoice names no amount, or one that is not below the cap.
    InvalidInvoiceAmount,
    /// The amount is above the most that one request may move.
    AmountTooLarge,
    /// The requester has drawn too much within the last day.
    TooManyPayments,
}

impl DmError {
    /// The words for the log.
    pub fn message(&self) -> (text: &'static str)
        ensures
            text@ == match *self {
                DmError::InvalidInvoiceAmount => "Invalid invoice amount"@,
                DmError::AmountTooLarge => "Amount exceeds max send amount"@,
                DmError::TooManyPayments => "Too many payments"@,
            },
    {
        match self {
            DmError::InvalidInvoiceAmount => "Invalid invoice amount",
            DmError::AmountTooLarge => "Amount exceeds max send amount",
            DmError::TooManyPayments => "Too many payments",
        }
    }
}

/// What a message asks for, whatever the case of its letters.
pub open spec fn command_of(message: Seq<char>) -> Command {
    if lowercased(message) == "zap me"@ {
        Command::Zap
    } else if lowercased(message) == "spam me"@ {
        Command::Spam
    } else {
        Command::Other
    }
}

/// Reads what a message asks for.
pub fn command(message: &str) -> (command: Command)
    ensures
        command == command_of(message@),
{
    let lower = lowercase(message);
    if lower == String::from_str("zap me") {
        Command::Zap
    } else if lower == String::from_str("spam me") {
        Command::Spam
    } else {
        Command::Other
    }
}

/// How many payments a command gets.
pub fn payments_for(command: Command) -> (count: u32)
    ensures
        count == match command {
            Command::Zap => 1u32,
            Command::Spam => SPAM_COUNT,
            Command::Other => 0u32,
        },
{
    match command {
        Command::Zap => 1,
        Command::Spam => SPAM_COUNT,
        Command::Other => 0,
    }
}

/// The amount that a payee is sent who asks for at least `min_sendable`:
/// twice that, unless it is above the cap.
pub fn zap_amount(min_sendable: u64) -> (amount: Result<u64, DmError>)
    ensures
        amount == (if 2 * min_sendable > MAX_SEND_AMOUNT {
            Err::<u64, DmError>(DmError::AmountTooLarge)
        } else {
            Ok::<u64, DmError>((2 * min_sendable) as u64)
        }),
{
    if min_sendable > MAX_SEND_AMOUNT / 2 {
        Err(DmError::AmountTooLarge)
    } else {
        Ok(min_sendable * 2)
    }
}

/// Decides whether an invoice from a message is paid: only one that names an
/// amount of fewer whole satoshis than the cap.
pub fn check_dm_invoice(amount_msat: Option<u64>) -> (payable: Result<(), DmError>)
    ensures
        payable is Ok <==> amount_msat is Some && amount_msat.unwrap() / 1000 < MAX_SEND_AMOUNT,
        payable is Err ==> payable == Err::<(), DmError>(DmError::InvalidInvoiceAmount),
{
    match amount_msat {
        Some(msat) => {
            if msat / 1000 < MAX_SEND_AMOUNT {
                Ok(())
            } else {
                Err(DmError::InvalidInvoiceAmount)
            }
        },
        None => Err(DmError::InvalidInvoiceAmount),
    }
}

/// The amount sent to an address from a message: the one that the address
/// text names, else the default.
pub open spec fn dm_amount(amount: Option<u64>) -> u64 {
    match amount {
        Some(a) => a,
        None => DEFAULT_ONCHAIN_AMOUNT,
    }
}

/// Decides whether coins are sent to an address from a message. The amount
/// is looked at first, then the admission guard's verdict. A message that
/// passes gives the amount to send.
pub fn dm_onchain_amount(amount: Option<u64>, admission_rejected: bool) -> (sats: Result<
    u64,
    DmError,
>)
    ensures
        sats == (if dm_amount(amount) > MAX_SEND_AMOUNT {
            Err::<u64, DmError>(DmError::AmountTooLarge)
        } else if admission_rejected {
            Err::<u64, DmError>(DmError::TooManyPayments)
        } else {
            Ok::<u64, DmError>(dm_amount(amount))
        }),
{
    let sats = match amount {
        Some(a) => a,
        None => DEFAULT_ONCHAIN_AMOUNT,
    };
    if sats > MAX_SEND_AMOUNT {
        Err(DmError::AmountTooLarge)
    } else if admission_rejected {
        Err(DmError::TooManyPayments)
    } else {
        Ok(sats)
    }
}

} // verus!
