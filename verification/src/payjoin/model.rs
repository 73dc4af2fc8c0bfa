//! The plain values of a negotiation: the transaction, the events that come
//! in and the actions that go out.

use vstd::prelude::*;

verus! {

/// The least number of confirmations of an output that the wallet is asked
/// for.
pub const UNSPENT_MIN_CONFS: i32 = 0;

/// The largest number of confirmations of an output that the wallet is asked
/// for.
pub const UNSPENT_MAX_CONFS: i32 = 9_999_999;

/// How long a lease on a contributed output lasts, in seconds.
pub const LEASE_SECONDS: u64 = 30;

/// The number of blocks within which the funded transaction is to confirm.
pub const FUND_TARGET_CONF: u32 = 6;

/// The lowest fee rate that the signed transaction may pay, in satoshis per
/// thousand weight units: the least that nodes relay.
pub const MIN_FEE_RATE_SAT_PER_KWU: u64 = 250;

/// A transaction output by the transaction that made it and its place there.
pub struct OutPoint {
    pub txid: Vec<u8>,
    pub vout: u32,
}

pub struct OutPointView {
    pub txid: Seq<u8>,
    pub vout: u32,
}

impl View for OutPoint {
    type V = OutPointView;

    open spec fn view(&self) -> OutPointView {
        OutPointView { txid: self.txid@, vout: self.vout }
    }
}

/// An amount and the script that locks it.
pub struct TxOut {
    pub value: u64,
    pub script_pubkey: Vec<u8>,
}

pub struct TxOutView {
    pub value: u64,
    pub script_pubkey: Seq<u8>,
}

impl View for TxOut {
    type V = TxOutView;

    open spec fn view(&self) -> TxOutView {
        TxOutView { value: self.value, script_pubkey: self.script_pubkey@ }
    }
}

/// An input of the original transaction: the output it spends, and the
/// redeem script it carries where it spends a script hash.
pub struct ProposalInput {
    pub previous_output: OutPoint,
    pub spent: TxOut,
    pub redeem_script: Option<Vec<u8>>,
}

pub struct ProposalInputView {
    pub previous_output: OutPointView,
    pub spent: TxOutView,
    pub redeem_script: Option<Seq<u8>>,
}

impl View for ProposalInput {
    type V = ProposalInputView;

    open spec fn view(&self) -> ProposalInputView {
        ProposalInputView {
            previous_output: self.previous_output@,
            spent: self.spent@,
            redeem_script: match self.redeem_script {
                Some(r) => Some(r@),
                None => None,
            },
        }
    }
}

/// The original transaction as the sender proposed it.
pub struct Proposal {
    pub inputs: Vec<ProposalInput>,
    pub outputs: Vec<TxOut>,
}

/// A spendable output of the receiver's wallet, as listed when inputs are
/// chosen.
pub struct CandidateUtxo {
    pub outpoint: OutPoint,
    pub amount: u64,
    pub script: Vec<u8>,
}

pub struct CandidateUtxoView {
    pub outpoint: OutPointView,
    pub amount: u64,
    pub script: Seq<u8>,
}

impl View for CandidateUtxo {
    type V = CandidateUtxoView;

    open spec fn view(&self) -> CandidateUtxoView {
        CandidateUtxoView { outpoint: self.outpoint@, amount: self.amount, script: self.script@ }
    }
}

/// What an oracle said: yes, no, or that it could not be asked.
#[derive(Clone, Copy, Debug, PartialEq, Eq, Structural)]
pub enum OracleAnswer {
    Yes,
    No,
    Failed,
}

/// Why a negotiation ended without a transaction.
#[derive(Clone, Copy, Debug, PartialEq, Eq, Structural)]
pub enum PayjoinError {
    /// The requester has drawn too much within the last day.
    AdmissionRejected,
    /// The request could not be read as a proposal.
    MalformedRequest,
    /// The node would not take the original transaction as it stands.
    NotBroadcastable,
    /// An input of the original transaction is the receiver's own.
    OwnershipViolation,
    /// An input spends a script of no known kind, or is not finalized.
    UnsupportedScript,
    /// The inputs are not all of one kind.
    MixedScripts,
    /// An input was seen in an earlier proposal.
    ReplayedInput,
    /// No output of the original transaction pays the receiver.
    MissingPayment,
    /// The wallet did not sign.
    SigningFailure,
    /// The node or the wallet could not be reached, or gave no usable answer.
    UpstreamUnavailable,
    /// An event came that the stage does not wait for.
    UnexpectedEvent,
}

impl PayjoinError {
    /// The words for the requester: short, and silent on what exactly was
    /// found.
    pub fn message(&self) -> (text: &'static str)
        ensures
            text@ == match *self {
                PayjoinError::AdmissionRejected => "Too many payments"@,
                PayjoinError::MalformedRequest => "failed to parse request"@,
                PayjoinError::NotBroadcastable => "Failed to broadcast"@,
                PayjoinError::OwnershipViolation => "Failed to validate inputs"@,
                PayjoinError::UnsupportedScript => "Failed to validate input scripts"@,
                PayjoinError::MixedScripts => "Failed to validate input scripts"@,
                PayjoinError::ReplayedInput => "Failed to check no inputs seen"@,
                PayjoinError::MissingPayment => "Failed to identify receiver outputs"@,
                PayjoinError::SigningFailure => "Failed to finalize proposal"@,
                PayjoinError::UpstreamUnavailable => "Upstream unavailable"@,
                PayjoinError::UnexpectedEvent => "Unexpected event"@,
            },
    {
        match self {
            PayjoinError::AdmissionRejected => "Too many payments",
            PayjoinError::MalformedRequest => "failed to parse request",
            PayjoinError::NotBroadcastable => "Failed to broadcast",
            PayjoinError::OwnershipViolation => "Failed to validate inputs",
            PayjoinError::UnsupportedScript => "Failed to validate input scripts",
            PayjoinError::MixedScripts => "Failed to validate input scripts",
            PayjoinError::ReplayedInput => "Failed to check no inputs seen",
            PayjoinError::MissingPayment => "Failed to identify receiver outputs",
            PayjoinError::SigningFailure => "Failed to finalize proposal",
            PayjoinError::UpstreamUnavailable => "Upstream unavailable",
            PayjoinError::UnexpectedEvent => "Unexpected event",
        }
    }

    /// Whether the fault lies with the node or the wallet and not with the
    /// request.
    pub fn is_upstream(&self) -> (upstream: bool)
        ensures
            upstream == (*self == PayjoinError::UpstreamUnavailable || *self
                == PayjoinError::SigningFailure),
    {
        match self {
            PayjoinError::UpstreamUnavailable => true,
            PayjoinError::SigningFailure => true,
            _ => false,
        }
    }
}

/// Why the receiver contributed no input. None of these ends a negotiation.
#[derive(Clone, Copy, Debug, PartialEq, Eq, Structural)]
pub enum SelectionFailure {
    /// The wallet's outputs could not be listed.
    ListFailed,
    /// No input was chosen.
    NothingChosen,
    /// The chosen outpoint is none of the listed outputs.
    UnknownOutpoint,
    /// The chosen output could not be leased.
    LeaseFailed,
}

/// How far a negotiation has come. Each stage names what is certified, and
/// where a check goes through the inputs or outputs one by one, the place it
/// has come to.
#[derive(Clone, Copy, Debug, PartialEq, Eq, Structural)]
pub enum Stage {
    /// The proposal is read; whether it can be broadcast is not yet known.
    Parsed,
    /// The original transaction can be broadcast; the inputs before `next`
    /// are not the receiver's.
    Broadcastable { next: usize },
    /// No input is the receiver's and all are of one kind; the inputs before
    /// `next` were not seen before.
    ScriptsChecked { next: usize },
    /// No input was seen before; the outputs before `next` are sorted into
    /// the receiver's and the others.
    ReplayChecked { next: usize },
    /// The receiver's outputs are known; the wallet's outputs are awaited.
    OutputsIdentified,
    /// The wallet's outputs are listed; the choice among them is awaited.
    Selecting,
    /// An output is chosen; its lease is awaited.
    Leasing { utxo: usize },
    /// The contribution is settled; a fresh address is awaited.
    Substituting,
    /// The receiver's output pays to the fresh address; the signature is
    /// awaited.
    Signing,
    /// The transaction is signed; the node's final form is awaited.
    Finalizing,
    /// The response is ready.
    Done,
    /// The negotiation has ended without a transaction.
    Rejected(PayjoinError),
}

/// What the caller is to do next.
#[derive(Clone, Copy, Debug, PartialEq, Eq, Structural)]
pub enum Action {
    /// Ask the node whether it would accept the original transaction.
    TestBroadcast,
    /// Ask whether the script that this input spends is the receiver's.
    IsInputOwned { input: usize },
    /// Ask whether this input's outpoint was seen in an earlier proposal.
    IsInputSeen { input: usize },
    /// Ask whether the script of this output is the receiver's.
    IsOutputOwned { output: usize },
    /// List the wallet's spendable outputs.
    ListUnspent,
    /// Choose one of the candidates so that the inputs do not give the
    /// receiver away.
    SelectInput,
    /// Lease this listed output for `LEASE_SECONDS`.
    LeaseOutput { utxo: usize },
    /// Get a fresh address from the wallet.
    NewAddress,
    /// Have the wallet fund and sign the transaction.
    Sign,
    /// Have the node put the signed transaction into its final form.
    Finalize,
    /// Send the response.
    Respond,
    /// Turn the request down.
    Reject(PayjoinError),
}

/// What came back from the last action.
pub enum Event {
    /// An oracle's answer.
    Verdict(OracleAnswer),
    /// The wallet's spendable outputs, or none where listing failed.
    Unspent(Option<Vec<CandidateUtxo>>),
    /// The outpoint chosen, or none where nothing was chosen.
    Selected(Option<OutPoint>),
    /// Whether the lease was taken.
    Leased(bool),
    /// The script of the fresh address, or none where no address came.
    Address(Option<Vec<u8>>),
    /// The signed transaction, or none where the wallet did not sign.
    Signed(Option<String>),
    /// The node's final form of the signed transaction, or none where the
    /// node gave none.
    Finalized(Option<String>),
}

pub enum EventView {
    Verdict(OracleAnswer),
    Unspent(Option<Seq<CandidateUtxoView>>),
    Selected(Option<OutPointView>),
    Leased(bool),
    Address(Option<Seq<u8>>),
    Signed(Option<Seq<char>>),
    Finalized(Option<Seq<char>>),
}

/// The listed outputs as plain values.
pub open spec fn utxos_view(utxos: Seq<CandidateUtxo>) -> Seq<CandidateUtxoView> {
    utxos.map_values(|u: CandidateUtxo| u@)
}

/// The inputs as plain values.
pub open spec fn inputs_view(inputs: Seq<ProposalInput>) -> Seq<ProposalInputView> {
    inputs.map_values(|i: ProposalInput| i@)
}

/// The outputs as plain values.
pub open spec fn outputs_view(outputs: Seq<TxOut>) -> Seq<TxOutView> {
    outputs.map_values(|o: TxOut| o@)
}

impl View for Event {
    type V = EventView;

    open spec fn view(&self) -> EventView {
        match self {
            Event::Verdict(a) => EventView::Verdict(*a),
            Event::Unspent(Some(utxos)) => EventView::Unspent(Some(utxos_view(utxos@))),
            Event::Unspent(None) => EventView::Unspent(None),
            Event::Selected(Some(outpoint)) => EventView::Selected(Some(outpoint@)),
            Event::Selected(None) => EventView::Selected(None),
            Event::Leased(taken) => EventView::Leased(*taken),
            Event::Address(Some(script)) => EventView::Address(Some(script@)),
            Event::Address(None) => EventView::Address(None),
            Event::Signed(Some(psbt)) => EventView::Signed(Some(psbt@)),
            Event::Signed(None) => EventView::Signed(None),
            Event::Finalized(Some(psbt)) => EventView::Finalized(Some(psbt@)),
            Event::Finalized(None) => EventView::Finalized(None),
        }
    }
}

/// A negotiation as plain values.
pub struct NegotiationView {
    pub stage: Stage,
    pub inputs: Seq<ProposalInputView>,
    pub outputs: Seq<TxOutView>,
    /// The places of the receiver's outputs, in rising order.
    pub owned_vouts: Seq<usize>,
    pub utxos: Seq<CandidateUtxoView>,
    /// The place among `utxos` of the output that the receiver contributes.
    pub contributed: Option<usize>,
    /// Why nothing was contributed, where selection was tried and failed.
    pub selection_failure: Option<SelectionFailure>,
    pub signed: Option<Seq<char>>,
    pub response: Option<Seq<char>>,
}

/// The original transaction as plain values.
pub struct ProposalView {
    pub inputs: Seq<ProposalInputView>,
    pub outputs: Seq<TxOutView>,
}

impl View for Proposal {
    type V = ProposalView;

    open spec fn view(&self) -> ProposalView {
        ProposalView { inputs: inputs_view(self.inputs@), outputs: outputs_view(self.outputs@) }
    }
}

} // verus!
