//! What each event makes of a negotiation.

use crate::script::{InputType, InputTypeError, input_type};
use crate::payjoin::model::{
    Action, CandidateUtxoView, EventView, NegotiationView, OracleAnswer, OutPointView,
    PayjoinError, ProposalInputView, ProposalView, SelectionFailure, Stage, TxOutView,
};
use vstd::prelude::*;

verus! {

/// What parsing a signed transaction and writing it out again in base64
/// gives: none where the text is no such transaction.
pub uninterp spec fn psbt_reencoded(text: Seq<char>) -> Option<Seq<char>>;

/// `bitcoin::psbt::Psbt::from_str`, then `Psbt::serialize` and
/// `bitcoin::base64::encode`: reads a partially signed transaction from its
/// base64 text and gives the base64 text of its serialization, or none where
/// the text does not parse.
#[verifier::external_body]
pub(crate) fn reencode_psbt(text: &str) -> (encoded: Option<String>)
    ensures
        match encoded {
            Some(e) => psbt_reencoded(text@) == Some(e@),
            None => psbt_reencoded(text@) is None,
        },
{
    match text.parse::<bitcoin::psbt::Psbt>() {
        Ok(psbt) => Some(bitcoin::base64::encode(psbt.serialize())),
        Err(_) => None,
    }
}

/// The kind of an input.
pub open spec fn kind_of(input: ProposalInputView) -> Result<InputType, InputTypeError> {
    input_type(input.spent.script_pubkey, input.redeem_script)
}

/// What is wrong with the inputs' scripts, if anything: an input of no known
/// kind comes before a mix of kinds.
pub open spec fn scripts_fault(inputs: Seq<ProposalInputView>) -> Option<PayjoinError> {
    if exists|i: int| 0 <= i < inputs.len() && kind_of(#[trigger] inputs[i]) is Err {
        Some(PayjoinError::UnsupportedScript)
    } else if exists|i: int|
        0 <= i < inputs.len() && kind_of(#[trigger] inputs[i]) != kind_of(inputs[0]) {
        Some(PayjoinError::MixedScripts)
    } else {
        None
    }
}

/// The place of the first listed output at or after `from` with this
/// outpoint.
pub open spec fn find_utxo_from(
    utxos: Seq<CandidateUtxoView>,
    outpoint: OutPointView,
    from: int,
) -> Option<int>
    decreases utxos.len() - from,
{
    if from < 0 || from >= utxos.len() {
        None
    } else if utxos[from].outpoint == outpoint {
        Some(from)
    } else {
        find_utxo_from(utxos, outpoint, from + 1)
    }
}

/// The place of the first listed output with this outpoint.
pub open spec fn find_utxo(utxos: Seq<CandidateUtxoView>, outpoint: OutPointView) -> Option<int> {
    find_utxo_from(utxos, outpoint, 0)
}

/// A listed output stands for its amount when no later one has the same
/// amount: of several outputs of one amount the last is the candidate.
pub open spec fn is_candidate(utxos: Seq<CandidateUtxoView>, i: int) -> bool {
    0 <= i < utxos.len() && forall|j: int|
        i < j < utxos.len() ==> (#[trigger] utxos[j]).amount != utxos[i].amount
}

/// The negotiation `v` at another stage.
pub open spec fn at(v: NegotiationView, stage: Stage) -> NegotiationView {
    NegotiationView { stage, ..v }
}

/// The negotiation `v` turned down.
pub open spec fn rejected(v: NegotiationView, error: PayjoinError) -> NegotiationView {
    NegotiationView { stage: Stage::Rejected(error), ..v }
}

/// The negotiation `v` going on without a contribution.
pub open spec fn uncontributed(v: NegotiationView, why: SelectionFailure) -> NegotiationView {
    NegotiationView { stage: Stage::Substituting, selection_failure: Some(why), ..v }
}

/// Where the negotiation stands once the outputs before `next` are sorted.
/// A transaction that pays the receiver nothing is turned down.
pub open spec fn enter_outputs(v: NegotiationView, next: int) -> NegotiationView {
    if next < v.outputs.len() {
        at(v, Stage::ReplayChecked { next: next as usize })
    } else if v.owned_vouts.len() == 0 {
        rejected(v, PayjoinError::MissingPayment)
    } else {
        at(v, Stage::OutputsIdentified)
    }
}

/// Where the negotiation stands once the inputs before `next` are known not
/// to have been seen.
pub open spec fn enter_replay(v: NegotiationView, next: int) -> NegotiationView {
    if next < v.inputs.len() {
        at(v, Stage::ScriptsChecked { next: next as usize })
    } else {
        enter_outputs(v, 0)
    }
}

/// Where the negotiation stands once the inputs before `next` are known not
/// to be the receiver's. After the last input the scripts are checked, which
/// needs no oracle.
pub open spec fn enter_inputs(v: NegotiationView, next: int) -> NegotiationView {
    if next < v.inputs.len() {
        at(v, Stage::Broadcastable { next: next as usize })
    } else {
        match scripts_fault(v.inputs) {
            Some(error) => rejected(v, error),
            None => enter_replay(v, 0),
        }
    }
}

/// Where a negotiation starts. A requester over the limit is turned away
/// before the request is looked at; a request that did not parse is
/// malformed.
pub open spec fn begun(admission_rejected: bool, request: Option<ProposalView>) -> NegotiationView {
    let (stage, inputs, outputs) = if admission_rejected {
        (
            Stage::Rejected(PayjoinError::AdmissionRejected),
            Seq::<ProposalInputView>::empty(),
            Seq::<TxOutView>::empty(),
        )
    } else {
        match request {
            Some(p) => (Stage::Parsed, p.inputs, p.outputs),
            None => (
                Stage::Rejected(PayjoinError::MalformedRequest),
                Seq::<ProposalInputView>::empty(),
                Seq::<TxOutView>::empty(),
            ),
        }
    };
    NegotiationView {
        stage,
        inputs,
        outputs,
        owned_vouts: Seq::empty(),
        utxos: Seq::empty(),
        contributed: None,
        selection_failure: None,
        signed: None,
        response: None,
    }
}

/// The negotiation after an oracle's answer.
pub open spec fn on_verdict(v: NegotiationView, answer: OracleAnswer) -> NegotiationView {
    match v.stage {
        Stage::Parsed => match answer {
            OracleAnswer::Yes => enter_inputs(v, 0),
            OracleAnswer::No => rejected(v, PayjoinError::NotBroadcastable),
            OracleAnswer::Failed => rejected(v, PayjoinError::UpstreamUnavailable),
        },
        Stage::Broadcastable { next } => match answer {
            OracleAnswer::No => enter_inputs(v, next + 1),
            OracleAnswer::Yes => rejected(v, PayjoinError::OwnershipViolation),
            OracleAnswer::Failed => rejected(v, PayjoinError::UpstreamUnavailable),
        },
        Stage::ScriptsChecked { next } => match answer {
            OracleAnswer::No => enter_replay(v, next + 1),
            OracleAnswer::Yes => rejected(v, PayjoinError::ReplayedInput),
            OracleAnswer::Failed => rejected(v, PayjoinError::UpstreamUnavailable),
        },
        Stage::ReplayChecked { next } => match answer {
            OracleAnswer::Yes => enter_outputs(
                NegotiationView { owned_vouts: v.owned_vouts.push(next), ..v },
                next + 1,
            ),
            OracleAnswer::No => enter_outputs(v, next + 1),
            OracleAnswer::Failed => rejected(v, PayjoinError::UpstreamUnavailable),
        },
        _ => rejected(v, PayjoinError::UnexpectedEvent),
    }
}

/// The negotiation after the wallet's outputs were asked for. A wallet that
/// cannot list them ends the selection, not the negotiation.
pub open spec fn on_unspent(
    v: NegotiationView,
    utxos: Option<Seq<CandidateUtxoView>>,
) -> NegotiationView {
    match v.stage {
        Stage::OutputsIdentified => match utxos {
            Some(utxos) => NegotiationView { stage: Stage::Selecting, utxos, ..v },
            None => uncontributed(v, SelectionFailure::ListFailed),
        },
        _ => rejected(v, PayjoinError::UnexpectedEvent),
    }
}

/// The negotiation after the choice of an input. The chosen outpoint is
/// looked up among the listed outputs; one that is not there, or no choice at
/// all, ends the selection, not the negotiation.
pub open spec fn on_selected(v: NegotiationView, outpoint: Option<OutPointView>) -> NegotiationView {
    match v.stage {
        Stage::Selecting => match outpoint {
            Some(outpoint) => match find_utxo(v.utxos, outpoint) {
                Some(utxo) => at(v, Stage::Leasing { utxo: utxo as usize }),
                None => uncontributed(v, SelectionFailure::UnknownOutpoint),
            },
            None => uncontributed(v, SelectionFailure::NothingChosen),
        },
        _ => rejected(v, PayjoinError::UnexpectedEvent),
    }
}

/// The negotiation after the lease was asked for. Only a leased output is
/// contributed.
pub open spec fn on_leased(v: NegotiationView, taken: bool) -> NegotiationView {
    match v.stage {
        Stage::Leasing { utxo } => if taken {
            NegotiationView { stage: Stage::Substituting, contributed: Some(utxo), ..v }
        } else {
            uncontributed(v, SelectionFailure::LeaseFailed)
        },
        _ => rejected(v, PayjoinError::UnexpectedEvent),
    }
}

/// The negotiation after a fresh address was asked for: the first of the
/// receiver's outputs pays to the new script, its amount unchanged.
pub open spec fn on_address(v: NegotiationView, script: Option<Seq<u8>>) -> NegotiationView {
    match v.stage {
        Stage::Substituting => match script {
            Some(script) => NegotiationView {
                stage: Stage::Signing,
                outputs: v.outputs.update(
                    v.owned_vouts[0] as int,
                    TxOutView {
                        value: v.outputs[v.owned_vouts[0] as int].value,
                        script_pubkey: script,
                    },
                ),
                ..v
            },
            None => rejected(v, PayjoinError::UpstreamUnavailable),
        },
        _ => rejected(v, PayjoinError::UnexpectedEvent),
    }
}

/// The negotiation after the wallet was asked to sign.
pub open spec fn on_signed(v: NegotiationView, psbt: Option<Seq<char>>) -> NegotiationView {
    match v.stage {
        Stage::Signing => match psbt {
            Some(psbt) => NegotiationView { stage: Stage::Finalizing, signed: Some(psbt), ..v },
            None => rejected(v, PayjoinError::SigningFailure),
        },
        _ => rejected(v, PayjoinError::UnexpectedEvent),
    }
}

/// The negotiation after the node's final form was read and written out
/// again: `encoded` is that text, or none where the node gave no transaction
/// or one that does not parse.
pub open spec fn on_finalized(v: NegotiationView, encoded: Option<Seq<char>>) -> NegotiationView {
    match v.stage {
        Stage::Finalizing => match encoded {
            Some(encoded) => NegotiationView { stage: Stage::Done, response: Some(encoded), ..v },
            None => rejected(v, PayjoinError::UpstreamUnavailable),
        },
        _ => rejected(v, PayjoinError::UnexpectedEvent),
    }
}

/// The negotiation after an event. A finished negotiation, done or turned
/// down, stays as it is whatever comes; an event that the stage does not wait
/// for turns the negotiation down.
pub open spec fn step(v: NegotiationView, event: EventView) -> NegotiationView {
    if v.stage is Rejected || v.stage is Done {
        v
    } else {
        match event {
            EventView::Verdict(answer) => on_verdict(v, answer),
            EventView::Unspent(utxos) => on_unspent(v, utxos),
            EventView::Selected(outpoint) => on_selected(v, outpoint),
            EventView::Leased(taken) => on_leased(v, taken),
            EventView::Address(script) => on_address(v, script),
            EventView::Signed(psbt) => on_signed(v, psbt),
            EventView::Finalized(text) => on_finalized(
                v,
                match text {
                    Some(t) => psbt_reencoded(t),
                    None => None,
                },
            ),
        }
    }
}

/// What the caller is to do at a stage.
pub open spec fn pending(stage: Stage) -> Action {
    match stage {
        Stage::Parsed => Action::TestBroadcast,
        Stage::Broadcastable { next } => Action::IsInputOwned { input: next },
        Stage::ScriptsChecked { next } => Action::IsInputSeen { input: next },
        Stage::ReplayChecked { next } => Action::IsOutputOwned { output: next },
        Stage::OutputsIdentified => Action::ListUnspent,
        Stage::Selecting => Action::SelectInput,
        Stage::Leasing { utxo } => Action::LeaseOutput { utxo },
        Stage::Substituting => Action::NewAddress,
        Stage::Signing => Action::Sign,
        Stage::Finalizing => Action::Finalize,
        Stage::Done => Action::Respond,
        Stage::Rejected(error) => Action::Reject(error),
    }
}

/// The stages at which the scripts of the inputs are certified.
pub open spec fn past_scripts(stage: Stage) -> bool {
    !(stage is Parsed || stage is Broadcastable || stage is Rejected)
}

/// The stages at which the receiver's outputs are known.
pub open spec fn past_outputs(stage: Stage) -> bool {
    past_scripts(stage) && !(stage is ScriptsChecked || stage is ReplayChecked)
}

/// The stages at which the receiver's contribution is settled.
pub open spec fn past_selection(stage: Stage) -> bool {
    stage is Substituting || stage is Signing || stage is Finalizing || stage is Done
        || stage is Rejected
}

impl NegotiationView {
    /// What holds of every negotiation: each place named is a place that
    /// exists, the receiver's outputs are in rising order, and each stage
    /// holds what the stages before it have certified.
    pub open spec fn wf(self) -> bool {
        &&& self.inputs.len() <= usize::MAX
        &&& self.outputs.len() <= usize::MAX
        &&& self.utxos.len() <= usize::MAX
        &&& match self.stage {
            Stage::Broadcastable { next } => next < self.inputs.len(),
            Stage::ScriptsChecked { next } => next < self.inputs.len(),
            Stage::ReplayChecked { next } => next < self.outputs.len() && forall|k: int|
                0 <= k < self.owned_vouts.len() ==> #[trigger] self.owned_vouts[k] < next,
            Stage::Leasing { utxo } => utxo < self.utxos.len(),
            Stage::Finalizing => self.signed is Some,
            Stage::Done => self.signed is Some && self.response is Some,
            _ => true,
        }
        &&& forall|k: int|
            0 <= k < self.owned_vouts.len() ==> #[trigger] self.owned_vouts[k] < self.outputs.len()
        &&& forall|j: int, k: int|
            0 <= j < k < self.owned_vouts.len() ==> self.owned_vouts[j] < self.owned_vouts[k]
        &&& past_scripts(self.stage) ==> scripts_fault(self.inputs) is None
        &&& (self.stage is Parsed || self.stage is Broadcastable || self.stage is ScriptsChecked)
            ==> self.owned_vouts.len() == 0
        &&& past_outputs(self.stage) ==> self.owned_vouts.len() > 0
        &&& match self.contributed {
            Some(utxo) => utxo < self.utxos.len() && self.selection_failure is None
                && past_selection(self.stage),
            None => true,
        }
        &&& self.selection_failure is Some ==> past_selection(self.stage)
    }
}

impl EventView {
    /// A list of outputs that comes with an event is one that a machine can
    /// hold.
    pub open spec fn wf(self) -> bool {
        match self {
            EventView::Unspent(Some(utxos)) => utxos.len() <= usize::MAX,
            _ => true,
        }
    }
}

/// Every step keeps a negotiation well formed.
pub proof fn lemma_step_keeps_wf(v: NegotiationView, event: EventView)
    requires
        v.wf(),
        event.wf(),
    ensures
        step(v, event).wf(),
{
    if !(v.stage is Rejected || v.stage is Done) {
        match event {
            EventView::Verdict(answer) => {
                assert(on_verdict(v, answer).wf());
            },
            EventView::Unspent(utxos) => {
                assert(on_unspent(v, utxos).wf());
            },
            EventView::Selected(outpoint) => {
                if let Some(outpoint) = outpoint {
                    lemma_find_utxo(v.utxos, outpoint, 0);
                }
                assert(on_selected(v, outpoint).wf());
            },
            EventView::Leased(taken) => {
                assert(on_leased(v, taken).wf());
            },
            EventView::Address(script) => {
                assert(on_address(v, script).wf());
            },
            EventView::Signed(psbt) => {
                assert(on_signed(v, psbt).wf());
            },
            EventView::Finalized(text) => {},
        }
    }
}

/// The output that a lookup finds is a listed one with the outpoint looked
/// for, and no listed output before it has that outpoint; a lookup finds
/// nothing only where no listed output has it.
pub proof fn lemma_find_utxo(utxos: Seq<CandidateUtxoView>, outpoint: OutPointView, from: int)
    requires
        0 <= from,
    ensures
        match find_utxo_from(utxos, outpoint, from) {
            Some(i) => from <= i < utxos.len() && utxos[i].outpoint == outpoint && forall|
                j: int,
            | from <= j < i ==> (#[trigger] utxos[j]).outpoint != outpoint,
            None => forall|j: int|
                from <= j < utxos.len() ==> (#[trigger] utxos[j]).outpoint != outpoint,
        },
    decreases utxos.len() - from,
{
    if from < utxos.len() && utxos[from].outpoint != outpoint {
        lemma_find_utxo(utxos, outpoint, from + 1);
    }
}

} // verus!
