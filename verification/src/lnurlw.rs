//! Withdrawing over LNURL: what the faucet offers, and what it asks of the
//! callback.

use crate::MAX_SEND_AMOUNT;
use vstd::prelude::*;
use vstd::string::StringExecFns;

verus! {

/// The parameters of the withdrawal callback: the secret that was offered and
/// the invoice to pay.
pub struct LnurlWithdrawParams {
    pub k1: String,
    pub pr: String,
}

/// The most that may be withdrawn at once, in thousandths of a satoshi.
pub const MAX_WITHDRAWABLE: u64 = 1_000_000_000;

/// What the faucet offers to a wallet that asks.
pub struct WithdrawalOffer {
    pub default_description: String,
    pub callback: String,
    pub k1: String,
    pub max_withdrawable: u64,
    pub min_withdrawable: Option<u64>,
}

/// Why a withdrawal was refused. The requester is told the same words
/// whichever it was.
#[derive(Clone, Copy, Debug, PartialEq, Eq, Structural)]
pub enum WithdrawError {
    /// The secret is not the one that was offered.
    IncorrectK1,
    /// The requester has drawn too much within the last day.
    TooManyPayments,
}

impl WithdrawError {
    /// The words for the requester.
    pub fn reason(&self) -> (text: &'static str)
        ensures
            text@ == "Incorrect k1"@,
    {
        "Incorrect k1"
    }
}

/// The offer: up to a thousand times the cap in thousandths of a satoshi, no
/// least amount, and the secret `k1`.
pub fn withdrawal_offer() -> (offer: WithdrawalOffer)
    ensures
        offer.default_description@ == "Mutinynet Faucet"@,
        offer.callback@ == "https://faucet.mutinynet.com/api/lnurlw/callback"@,
        offer.k1@ == "k1"@,
        offer.max_withdrawable == MAX_SEND_AMOUNT * 1000,
        offer.min_withdrawable is None,
{
    WithdrawalOffer {
        default_description: String::from_str("Mutinynet Faucet"),
        callback: String::from_str("https://faucet.mutinynet.com/api/lnurlw/callback"),
        k1: String::from_str("k1"),
        max_withdrawable: MAX_WITHDRAWABLE,
        min_withdrawable: None,
    }
}

/// Decides whether the callback's invoice is taken for payment: the secret
/// must be the one offered, and the requester within the limit.
/// `admission_rejected` is what the admission guard said of the requester.
pub fn check_withdrawal(params: &LnurlWithdrawParams, admission_rejected: bool) -> (allowed: Result<
    (),
    WithdrawError,
>)
    ensures
        allowed == (if params.k1@ != "k1"@ {
            Err::<(), WithdrawError>(WithdrawError::IncorrectK1)
        } else if admission_rejected {
            Err::<(), WithdrawError>(WithdrawError::TooManyPayments)
        } else {
            Ok::<(), WithdrawError>(())
        }),
{
    if params.k1 != String::from_str("k1") {
        Err(WithdrawError::IncorrectK1)
    } else if admission_rejected {
        Err(WithdrawError::TooManyPayments)
    } else {
        Ok(())
    }
}

} // verus!
