//! Paying over Lightning: what is asked of an invoice before the node is
//! called, and what is made of the node's answer.

use crate::encoding::hex_encode;
use crate::encoding::hex_encoded;
use crate::MAX_SEND_AMOUNT;
use vstd::prelude::*;

verus! {

/// A request to pay an invoice, or whatever else names a Lightning payee.
#[derive(Clone)]
pub struct LightningRequest {
    pub bolt11: String,
}

/// The proof of a payment, in hexadecimal.
#[derive(Clone)]
pub struct LightningResponse {
    pub payment_hash: String,
}

/// Why nothing was paid.
#[derive(Clone, Copy, Debug, PartialEq, Eq, Structural)]
pub enum LightningError {
    /// The requester has drawn too much within the last day.
    TooManyPayments,
    /// The text names no payee.
    InvalidBolt11,
    /// The invoice names no amount.
    MissingAmount,
    /// The amount is above the most that one request may move.
    AmountTooLarge,
    /// The payee's service gave no invoice that can be read.
    InvalidInvoice,
    /// The node reported that the payment failed.
    PaymentFailed,
}

impl LightningError {
    /// The words for the requester.
    pub fn message(&self) -> (text: &'static str)
        ensures
            text@ == match *self {
                LightningError::TooManyPayments => "Too many payments"@,
                LightningError::InvalidBolt11 => "invalid bolt11"@,
                LightningError::MissingAmount => "bolt11 invoice should have an amount"@,
                LightningError::AmountTooLarge => "max amount is 1,000,000"@,
                LightningError::InvalidInvoice => "invalid lnurl"@,
                LightningError::PaymentFailed => "Payment error"@,
            },
    {
        match self {
            LightningError::TooManyPayments => "Too many payments",
            LightningError::InvalidBolt11 => "invalid bolt11",
            LightningError::MissingAmount => "bolt11 invoice should have an amount",
            LightningError::AmountTooLarge => "max amount is 1,000,000",
            LightningError::InvalidInvoice => "invalid lnurl",
            LightningError::PaymentFailed => "Payment error",
        }
    }
}

/// What reading `text` as an invoice gives: the amount it names, in
/// thousandths of a satoshi, and the invoice written out again; none where
/// the text is no invoice.
pub uninterp spec fn invoice_read(text: Seq<char>) -> Option<(Option<u64>, Seq<char>)>;

/// An invoice as it was read.
pub struct Invoice {
    pub amount_msat: Option<u64>,
    pub payment_request: String,
}

/// `lightning_invoice::Bolt11Invoice::from_str`, then
/// `Bolt11Invoice::amount_milli_satoshis` and the invoice's `to_string`:
/// reads a signed invoice from its text.
#[verifier::external_body]
fn read_invoice(text: &str) -> (invoice: Option<Invoice>)
    ensures
        match invoice {
            Some(i) => invoice_read(text@) == Some((i.amount_msat, i.payment_request@)),
            None => invoice_read(text@) is None,
        },
{
    match text.parse::<lightning_invoice::Bolt11Invoice>() {
        Ok(invoice) => Some(
            Invoice {
                amount_msat: invoice.amount_milli_satoshis(),
                payment_request: invoice.to_string(),
            },
        ),
        Err(_) => None,
    }
}

/// The whole satoshis in an amount of thousandths of a satoshi.
pub fn whole_sats(msat: u64) -> (sats: u64)
    ensures
        sats == msat / 1000,
{
    msat / 1000
}

/// Turns away a requester who is over the limit, before anything of the
/// request is read. `admission_rejected` is what the admission guard said.
pub fn check_admission(admission_rejected: bool) -> (admitted: Result<(), LightningError>)
    ensures
        admitted == (if admission_rejected {
            Err::<(), LightningError>(LightningError::TooManyPayments)
        } else {
            Ok::<(), LightningError>(())
        }),
{
    if admission_rejected {
        Err(LightningError::TooManyPayments)
    } else {
        Ok(())
    }
}

/// The first fault of an invoice that is to be paid as it stands: the
/// admission guard's verdict, a missing amount, an amount of more whole
/// satoshis than the cap.
pub open spec fn invoice_fault(admission_rejected: bool, amount_msat: Option<u64>) -> Option<
    LightningError,
> {
    if admission_rejected {
        Some(LightningError::TooManyPayments)
    } else if amount_msat is None {
        Some(LightningError::MissingAmount)
    } else if amount_msat.unwrap() / 1000 > MAX_SEND_AMOUNT {
        Some(LightningError::AmountTooLarge)
    } else {
        None
    }
}

/// Decides whether an invoice may be paid. `admission_rejected` is what the
/// admission guard said of the requester. An invoice that passes gives the
/// whole satoshis that it counts against the requester.
pub fn check_invoice(admission_rejected: bool, amount_msat: Option<u64>) -> (sats: Result<
    u64,
    LightningError,
>)
    ensures
        match sats {
            Ok(s) => invoice_fault(admission_rejected, amount_msat) is None && s
                == amount_msat.unwrap() / 1000 && s <= MAX_SEND_AMOUNT,
            Err(e) => invoice_fault(admission_rejected, amount_msat) == Some(e),
        },
{
    if admission_rejected {
        return Err(LightningError::TooManyPayments);
    }
    match amount_msat {
        None => Err(LightningError::MissingAmount),
        Some(msat) => {
            let sats = whole_sats(msat);
            if sats > MAX_SEND_AMOUNT {
                Err(LightningError::AmountTooLarge)
            } else {
                Ok(sats)
            }
        },
    }
}

/// Decides whether a payee who asks for at least `min_sendable` may be asked
/// for an invoice of that amount: not where the requester is over the limit,
/// and not where the least amount is above the cap.
pub fn check_min_sendable(admission_rejected: bool, min_sendable: u64) -> (amount: Result<
    u64,
    LightningError,
>)
    ensures
        amount == (if admission_rejected {
            Err::<u64, LightningError>(LightningError::TooManyPayments)
        } else if min_sendable > MAX_SEND_AMOUNT {
            Err::<u64, LightningError>(LightningError::AmountTooLarge)
        } else {
            Ok::<u64, LightningError>(min_sendable)
        }),
{
    if admission_rejected {
        Err(LightningError::TooManyPayments)
    } else if min_sendable > MAX_SEND_AMOUNT {
        Err(LightningError::AmountTooLarge)
    } else {
        Ok(min_sendable)
    }
}

/// Takes the invoice that a payee's service gave: it is read, and paid as it
/// is written out again.
pub fn served_invoice(invoice: Option<Invoice>) -> (request: Result<String, LightningError>)
    ensures
        match request {
            Ok(r) => invoice is Some && r@ == invoice.unwrap().payment_request@,
            Err(e) => invoice is None && e == LightningError::InvalidInvoice,
        },
{
    match invoice {
        Some(invoice) => Ok(invoice.payment_request),
        None => Err(LightningError::InvalidInvoice),
    }
}

/// Reads the invoice that a payee's service gave and takes it for payment.
pub fn accept_served_invoice(text: &str) -> (request: Result<String, LightningError>)
    ensures
        match request {
            Ok(r) => invoice_read(text@) is Some && r@ == invoice_read(text@).unwrap().1,
            Err(e) => invoice_read(text@) is None && e == LightningError::InvalidInvoice,
        },
{
    served_invoice(read_invoice(text))
}

/// The first fault of a text that is to be paid as the invoice it holds:
/// the admission guard's verdict, then a text that is no invoice, then the
/// faults of the invoice itself.
pub open spec fn payment_fault(
    admission_rejected: bool,
    invoice: Option<(Option<u64>, Seq<char>)>,
) -> Option<LightningError> {
    if admission_rejected {
        Some(LightningError::TooManyPayments)
    } else {
        match invoice {
            Some((amount, _)) => invoice_fault(false, amount),
            None => Some(LightningError::InvalidBolt11),
        }
    }
}

/// Decides whether the invoice, as it was read, may be paid. A requester who
/// is over the limit is turned away whatever the text holds. An invoice that
/// passes gives the whole satoshis that it counts against the requester, and
/// the invoice as it is handed to the node.
pub fn pay_invoice_read(admission_rejected: bool, invoice: Option<Invoice>) -> (order: Result<
    (u64, String),
    LightningError,
>)
    ensures
        match order {
            Ok((sats, request)) => {
                &&& !admission_rejected
                &&& invoice is Some
                &&& invoice_fault(false, invoice.unwrap().amount_msat) is None
                &&& sats == invoice.unwrap().amount_msat.unwrap() / 1000
                &&& sats <= MAX_SEND_AMOUNT
                &&& request@ == invoice.unwrap().payment_request@
            },
            Err(e) => Some(e) == (if admission_rejected {
                Some(LightningError::TooManyPayments)
            } else {
                match invoice {
                    Some(i) => invoice_fault(false, i.amount_msat),
                    None => Some(LightningError::InvalidBolt11),
                }
            }),
        },
{
    if admission_rejected {
        return Err(LightningError::TooManyPayments);
    }
    match invoice {
        None => Err(LightningError::InvalidBolt11),
        Some(invoice) => match check_invoice(false, invoice.amount_msat) {
            Ok(sats) => Ok((sats, invoice.payment_request)),
            Err(e) => Err(e),
        },
    }
}

/// Reads an invoice that is to be paid as it stands, and decides whether it
/// may be paid. A requester who is over the limit is turned away before the
/// text is read.
pub fn pay_invoice(text: &str, admission_rejected: bool) -> (invoice: Result<
    (u64, String),
    LightningError,
>)
    ensures
        match invoice {
            Ok((sats, request)) => {
                &&& payment_fault(admission_rejected, invoice_read(text@)) is None
                &&& sats == invoice_read(text@).unwrap().0.unwrap() / 1000
                &&& sats <= MAX_SEND_AMOUNT
                &&& request@ == invoice_read(text@).unwrap().1
            },
            Err(e) => payment_fault(admission_rejected, invoice_read(text@)) == Some(e),
        },
{
    if admission_rejected {
        return Err(LightningError::TooManyPayments);
    }
    pay_invoice_read(false, read_invoice(text))
}

/// Makes the response from the node's answer: the preimage in hexadecimal,
/// unless the node reported an error.
pub fn payment_outcome(payment_error: &str, payment_preimage: &Vec<u8>) -> (hash: Result<
    String,
    LightningError,
>)
    ensures
        match hash {
            Ok(h) => payment_error@.len() == 0 && h@ == hex_encoded(payment_preimage@),
            Err(e) => payment_error@.len() > 0 && e == LightningError::PaymentFailed,
        },
{
    if !payment_error.is_empty() {
        Err(LightningError::PaymentFailed)
    } else {
        Ok(hex_encode(payment_preimage))
    }
}

} // verus!
