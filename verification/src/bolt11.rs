//! Asking the node for an invoice.

use vstd::prelude::*;

verus! {

/// A request for an invoice, of an amount or of none.
#[derive(Clone)]
pub struct Bolt11Request {
    pub amount_sats: Option<u64>,
}

/// The invoice that the node made.
#[derive(Clone)]
pub struct Bolt11Response {
    pub bolt11: String,
}

/// The value that the node is given for an invoice: the amount asked for as
/// a signed number of the same 64 bits, zero where none was asked for.
pub open spec fn invoice_value(amount_sats: Option<u64>) -> int {
    match amount_sats {
        Some(a) => if a <= i64::MAX {
            a as int
        } else {
            a - 0x1_0000_0000_0000_0000
        },
        None => 0,
    }
}

impl Bolt11Request {
    /// The value that the node is given for the invoice.
    pub fn value(&self) -> (value: i64)
        ensures
            value == invoice_value(self.amount_sats),
    {
        match self.amount_sats {
            Some(a) => {
                if a <= 0x7fff_ffff_ffff_ffff {
                    a as i64
                } else {
                    let above: u64 = a - 0x8000_0000_0000_0000;
                    above as i64 + i64::MIN
                }
            },
            None => 0,
        }
    }
}

} // verus!
