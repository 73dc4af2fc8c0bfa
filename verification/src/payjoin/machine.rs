//! The negotiation itself, and the lookups that selection needs.

use crate::encoding::{hex_decode, hex_decoded};
use crate::script::{InputType, InputTypeError, classify};
use crate::payjoin::model::{
    Action, CandidateUtxo, CandidateUtxoView, Event, EventView, NegotiationView, OracleAnswer,
    OutPoint, OutPointView, PayjoinError, Proposal, ProposalInput, ProposalView,
    SelectionFailure, Stage, TxOut, TxOutView, inputs_view, outputs_view, utxos_view,
};
use crate::payjoin::transition::{
    begun, enter_inputs, enter_outputs, enter_replay, find_utxo, find_utxo_from, is_candidate,
    kind_of, lemma_step_keeps_wf, on_address, on_finalized, on_leased, on_selected, on_signed,
    on_unspent, on_verdict, pending, reencode_psbt, rejected, scripts_fault, step,
    uncontributed,
};
use vstd::prelude::*;

verus! {

/// The name under which the receiver leases the output that it contributes:
/// the bytes of `payjoin`.
pub fn lease_id() -> (id: Vec<u8>)
    ensures
        id@ == seq![0x70u8, 0x61u8, 0x79u8, 0x6au8, 0x6fu8, 0x69u8, 0x6eu8],
{
    let mut id: Vec<u8> = Vec::new();
    id.push(0x70);
    id.push(0x61);
    id.push(0x79);
    id.push(0x6a);
    id.push(0x6f);
    id.push(0x69);
    id.push(0x6e);
    assert(id@ =~= seq![0x70u8, 0x61u8, 0x79u8, 0x6au8, 0x6fu8, 0x69u8, 0x6eu8]);
    id
}

/// How long the id of a transaction is, in bytes.
pub const TXID_LEN: usize = 32;

/// A wallet's record of an output as a candidate: one that names its
/// outpoint with an id of the right length, an amount that is not negative,
/// and a script in hexadecimal. Any other record gives none.
pub open spec fn candidate_read(
    outpoint: Option<(Seq<u8>, u32)>,
    amount_sat: i64,
    pk_script: Seq<char>,
) -> Option<CandidateUtxoView> {
    match (outpoint, hex_decoded(pk_script)) {
        (Some((txid, vout)), Some(script)) => if txid.len() == TXID_LEN && amount_sat >= 0 {
            Some(
                CandidateUtxoView {
                    outpoint: OutPointView { txid, vout },
                    amount: amount_sat as u64,
                    script,
                },
            )
        } else {
            None
        },
        _ => None,
    }
}

/// The outpoint of a record, where it names one, as plain values.
pub open spec fn named_outpoint(outpoint: Option<(Vec<u8>, u32)>) -> Option<(Seq<u8>, u32)> {
    match outpoint {
        Some((txid, vout)) => Some((txid@, vout)),
        None => None,
    }
}

/// Reads a wallet's record of an output. A record that cannot be read is no
/// candidate: it is left out of the choice and ends nothing.
pub fn candidate_utxo(outpoint: Option<(Vec<u8>, u32)>, amount_sat: i64, pk_script: &str) -> (utxo:
    Option<CandidateUtxo>)
    ensures
        match utxo {
            Some(u) => candidate_read(named_outpoint(outpoint), amount_sat, pk_script@) == Some(u@),
            None => candidate_read(named_outpoint(outpoint), amount_sat, pk_script@) is None,
        },
{
    match outpoint {
        None => None,
        Some((txid, vout)) => {
            if txid.len() != TXID_LEN || amount_sat < 0 {
                return None;
            }
            match hex_decode(pk_script) {
                None => None,
                Some(script) => Some(
                    CandidateUtxo {
                        outpoint: OutPoint { txid, vout },
                        amount: amount_sat as u64,
                        script,
                    },
                ),
            }
        },
    }
}

/// Whether two byte strings are the same.
fn same_bytes(a: &Vec<u8>, b: &Vec<u8>) -> (same: bool)
    ensures
        same == (a@ == b@),
{
    if a.len() != b.len() {
        return false;
    }
    let mut i: usize = 0;
    while i < a.len()
        invariant
            a.len() == b.len(),
            i <= a.len(),
            forall|j: int| 0 <= j < i ==> a@[j] == b@[j],
        decreases a.len() - i,
    {
        if a[i] != b[i] {
            return false;
        }
        i = i + 1;
    }
    assert(a@ =~= b@);
    true
}

/// Checks that every input is of a known kind and that all are of one kind.
pub fn check_scripts(inputs: &Vec<ProposalInput>) -> (fault: Option<PayjoinError>)
    ensures
        fault == scripts_fault(inputs_view(inputs@)),
{
    let ghost views = inputs_view(inputs@);
    let mut mixed = false;
    let mut first: Option<InputType> = None;
    let mut i: usize = 0;
    while i < inputs.len()
        invariant
            i <= inputs.len(),
            views == inputs_view(inputs@),
            forall|j: int| 0 <= j < i ==> kind_of(#[trigger] views[j]) is Ok,
            i == 0 ==> first is None && !mixed,
            i > 0 ==> first is Some && kind_of(views[0]) == Ok::<InputType, InputTypeError>(
                first.unwrap(),
            ),
            mixed ==> exists|j: int| 0 <= j < i && kind_of(#[trigger] views[j]) != kind_of(views[0]),
            !mixed ==> forall|j: int| 0 <= j < i ==> kind_of(#[trigger] views[j]) == kind_of(views[0]),
        decreases inputs.len() - i,
    {
        let input = &inputs[i];
        assert(views[i as int] == input@);
        match classify(&input.spent.script_pubkey, &input.redeem_script) {
            Err(_) => {
                return Some(PayjoinError::UnsupportedScript);
            },
            Ok(kind) => {
                match first {
                    None => {
                        first = Some(kind);
                    },
                    Some(f) => {
                        if kind != f {
                            mixed = true;
                            assert(kind_of(views[i as int]) != kind_of(views[0]));
                        }
                    },
                }
            },
        }
        i = i + 1;
    }
    if mixed {
        Some(PayjoinError::MixedScripts)
    } else {
        None
    }
}

/// Finds the first listed output with this outpoint.
pub fn lookup(utxos: &Vec<CandidateUtxo>, outpoint: &OutPoint) -> (found: Option<usize>)
    ensures
        match found {
            Some(i) => find_utxo(utxos_view(utxos@), outpoint@) == Some(i as int),
            None => find_utxo(utxos_view(utxos@), outpoint@) is None,
        },
{
    let ghost views = utxos_view(utxos@);
    let n = utxos.len();
    let mut i: usize = 0;
    while i < n
        invariant
            n == utxos.len(),
            i <= n,
            views == utxos_view(utxos@),
            find_utxo(views, outpoint@) == find_utxo_from(views, outpoint@, i as int),
        decreases n - i,
    {
        let utxo = &utxos[i];
        assert(views[i as int] == utxo@);
        if utxo.outpoint.vout == outpoint.vout && same_bytes(&utxo.outpoint.txid, &outpoint.txid) {
            return Some(i);
        }
        i = i + 1;
    }
    None
}

/// The places of the listed outputs that stand for their amounts, in rising
/// order: these are what the choice is made from.
pub fn candidates(utxos: &Vec<CandidateUtxo>) -> (places: Vec<usize>)
    ensures
        forall|i: int|
            places@.contains(i as usize) && 0 <= i <= usize::MAX <==> is_candidate(
                utxos_view(utxos@),
                i,
            ),
        forall|j: int, k: int| 0 <= j < k < places@.len() ==> places@[j] < places@[k],
{
    let ghost views = utxos_view(utxos@);
    let n = utxos.len();
    let mut places: Vec<usize> = Vec::new();
    let mut i: usize = 0;
    while i < n
        invariant
            n == utxos.len(),
            i <= n,
            views == utxos_view(utxos@),
            forall|k: int| 0 <= k < places@.len() ==> places@[k] < i && is_candidate(
                views,
                #[trigger] places@[k] as int,
            ),
            forall|c: int| 0 <= c < i && is_candidate(views, c) ==> places@.contains(c as usize),
            forall|j: int, k: int| 0 <= j < k < places@.len() ==> places@[j] < places@[k],
        decreases n - i,
    {
        let amount = utxos[i].amount;
        assert(views[i as int] == utxos@[i as int]@);
        let mut last = true;
        let mut j: usize = i + 1;
        while j < n
            invariant
                n == utxos.len(),
                i < j <= n,
                views == utxos_view(utxos@),
                amount == views[i as int].amount,
                last == forall|k: int| i < k < j ==> (#[trigger] views[k]).amount != amount,
            decreases n - j,
        {
            assert(views[j as int] == utxos@[j as int]@);
            if utxos[j].amount == amount {
                last = false;
            }
            j = j + 1;
        }
        if last {
            let ghost before = places@;
            places.push(i);
            assert forall|c: int| 0 <= c < i + 1 && is_candidate(views, c) implies places@.contains(
                c as usize,
            ) by {
                if c < i {
                    let k = choose|k: int| 0 <= k < before.len() && before[k] == c as usize;
                    assert(places@[k] == c as usize);
                } else {
                    assert(places@[places@.len() - 1] == i);
                }
            }
        }
        i = i + 1;
    }
    assert forall|i: int| places@.contains(i as usize) && 0 <= i <= usize::MAX implies is_candidate(
        views,
        i,
    ) by {
        let k = choose|k: int| 0 <= k < places@.len() && places@[k] == i as usize;
        assert(is_candidate(views, places@[k] as int));
    }
    places
}

/// One payjoin negotiation, from the request to the response.
pub struct Negotiation {
    stage: Stage,
    proposal: Proposal,
    owned_vouts: Vec<usize>,
    utxos: Vec<CandidateUtxo>,
    contributed: Option<usize>,
    selection_failure: Option<SelectionFailure>,
    signed: Option<String>,
    response: Option<String>,
}

/// A text, where there is one, as plain values.
pub open spec fn text_view(text: Option<String>) -> Option<Seq<char>> {
    match text {
        Some(t) => Some(t@),
        None => None,
    }
}

/// A request, where it parsed, as plain values.
pub open spec fn request_view(request: Option<Proposal>) -> Option<ProposalView> {
    match request {
        Some(p) => Some(p@),
        None => None,
    }
}

impl View for Negotiation {
    type V = NegotiationView;

    closed spec fn view(&self) -> NegotiationView {
        NegotiationView {
            stage: self.stage,
            inputs: inputs_view(self.proposal.inputs@),
            outputs: outputs_view(self.proposal.outputs@),
            owned_vouts: self.owned_vouts@,
            utxos: utxos_view(self.utxos@),
            contributed: self.contributed,
            selection_failure: self.selection_failure,
            signed: text_view(self.signed),
            response: text_view(self.response),
        }
    }
}

impl Negotiation {
    /// Starts a negotiation. `admission_rejected` is what the admission guard
    /// said of the requester; `request` is the proposal, or none where the
    /// request did not parse.
    pub fn begin(admission_rejected: bool, request: Option<Proposal>) -> (negotiation: Self)
        ensures
            negotiation@ == begun(admission_rejected, request_view(request)),
            negotiation@.wf(),
    {
        let (stage, proposal) = if admission_rejected {
            (
                Stage::Rejected(PayjoinError::AdmissionRejected),
                Proposal { inputs: Vec::new(), outputs: Vec::new() },
            )
        } else {
            match request {
                Some(proposal) => (Stage::Parsed, proposal),
                None => (
                    Stage::Rejected(PayjoinError::MalformedRequest),
                    Proposal { inputs: Vec::new(), outputs: Vec::new() },
                ),
            }
        };
        let negotiation = Negotiation {
            stage,
            proposal,
            owned_vouts: Vec::new(),
            utxos: Vec::new(),
            contributed: None,
            selection_failure: None,
            signed: None,
            response: None,
        };
        proof {
            let v = begun(admission_rejected, request_view(request));
            assert(negotiation@.inputs.len() == negotiation.proposal.inputs.len());
            assert(negotiation@.outputs.len() == negotiation.proposal.outputs.len());
            assert(negotiation@.inputs =~= v.inputs);
            assert(negotiation@.outputs =~= v.outputs);
            assert(negotiation@.utxos =~= v.utxos);
            assert(negotiation@.owned_vouts =~= v.owned_vouts);
        }
        negotiation
    }

    /// How far the negotiation has come.
    pub fn stage(&self) -> (stage: Stage)
        ensures
            stage == self@.stage,
    {
        self.stage
    }

    /// What the caller is to do next.
    pub fn action(&self) -> (action: Action)
        ensures
            action == pending(self@.stage),
    {
        match self.stage {
            Stage::Parsed => Action::TestBroadcast,
            Stage::Broadcastable { next } => Action::IsInputOwned { input: next },
            Stage::ScriptsChecked { next } => Action::IsInputSeen { input: next },
            Stage::ReplayChecked { next } => Action::IsOutputOwned { output: next },
            Stage::OutputsIdentified => Action::ListUnspent,
            Stage::Selecting => Action::SelectInput,
            Stage::Leasing { utxo } => Action::LeaseOutput { utxo },
            Stage::Substituting => Action::NewAddress,
            Stage::Signing => Action::Sign,
            Stage::Finalizing => Action::Finalize,
            Stage::Done => Action::Respond,
            Stage::Rejected(error) => Action::Reject(error),
        }
    }

    /// The transaction as it stands: the original one, and from the signing
    /// stage on with the receiver's output paying to the fresh address.
    pub fn proposal(&self) -> (proposal: &Proposal)
        ensures
            proposal@.inputs == self@.inputs,
            proposal@.outputs == self@.outputs,
    {
        &self.proposal
    }

    /// The places of the receiver's outputs, in rising order.
    pub fn owned_vouts(&self) -> (vouts: &Vec<usize>)
        ensures
            vouts@ == self@.owned_vouts,
    {
        &self.owned_vouts
    }

    /// The wallet's outputs as they were listed.
    pub fn utxos(&self) -> (utxos: &Vec<CandidateUtxo>)
        ensures
            utxos_view(utxos@) == self@.utxos,
    {
        &self.utxos
    }

    /// The output that the receiver contributes, where it contributes one.
    pub fn contribution(&self) -> (utxo: Option<&CandidateUtxo>)
        requires
            self@.wf(),
        ensures
            match utxo {
                Some(u) => self@.contributed is Some && u@ == self@.utxos[self@.contributed.unwrap() as int],
                None => self@.contributed is None,
            },
    {
        match self.contributed {
            Some(i) => Some(&self.utxos[i]),
            None => None,
        }
    }

    /// What a finished negotiation has moved of the receiver's coins: the
    /// amount of the output that it contributed, and nothing where it
    /// contributed none or did not come to its end.
    pub fn contributed_amount(&self) -> (amount: u64)
        requires
            self@.wf(),
        ensures
            amount == (if self@.stage is Done && self@.contributed is Some {
                self@.utxos[self@.contributed.unwrap() as int].amount
            } else {
                0
            }),
    {
        match (self.stage, self.contributed) {
            (Stage::Done, Some(i)) => {
                assert(self@.utxos[i as int] == self.utxos@[i as int]@);
                self.utxos[i].amount
            },
            _ => 0,
        }
    }

    /// Why nothing was contributed, where selection was tried and failed.
    pub fn selection_failure(&self) -> (failure: Option<SelectionFailure>)
        ensures
            failure == self@.selection_failure,
    {
        self.selection_failure
    }

    /// The signed transaction, once the wallet has signed.
    pub fn signed(&self) -> (psbt: Option<&String>)
        ensures
            match psbt {
                Some(p) => self@.signed == Some(p@),
                None => self@.signed is None,
            },
    {
        self.signed.as_ref()
    }

    /// The response, once the negotiation is done.
    pub fn response(&self) -> (payload: Option<&String>)
        ensures
            match payload {
                Some(p) => self@.response == Some(p@),
                None => self@.response is None,
            },
    {
        self.response.as_ref()
    }

    fn reject(&mut self, error: PayjoinError)
        ensures
            final(self)@ == rejected(old(self)@, error),
    {
        self.stage = Stage::Rejected(error);
    }

    fn skip_contribution(&mut self, why: SelectionFailure)
        ensures
            final(self)@ == uncontributed(old(self)@, why),
    {
        self.stage = Stage::Substituting;
        self.selection_failure = Some(why);
    }

    fn enter_outputs(&mut self, next: usize)
        ensures
            final(self)@ == enter_outputs(old(self)@, next as int),
    {
        if next < self.proposal.outputs.len() {
            self.stage = Stage::ReplayChecked { next };
        } else if self.owned_vouts.len() == 0 {
            self.stage = Stage::Rejected(PayjoinError::MissingPayment);
        } else {
            self.stage = Stage::OutputsIdentified;
        }
    }

    fn enter_replay(&mut self, next: usize)
        ensures
            final(self)@ == enter_replay(old(self)@, next as int),
    {
        if next < self.proposal.inputs.len() {
            self.stage = Stage::ScriptsChecked { next };
        } else {
            self.enter_outputs(0);
        }
    }

    fn enter_inputs(&mut self, next: usize)
        ensures
            final(self)@ == enter_inputs(old(self)@, next as int),
    {
        if next < self.proposal.inputs.len() {
            self.stage = Stage::Broadcastable { next };
        } else {
            match check_scripts(&self.proposal.inputs) {
                Some(error) => self.reject(error),
                None => self.enter_replay(0),
            }
        }
    }

    fn on_verdict(&mut self, answer: OracleAnswer)
        requires
            old(self)@.wf(),
        ensures
            final(self)@ == on_verdict(old(self)@, answer),
    {
        match self.stage {
            Stage::Parsed => match answer {
                OracleAnswer::Yes => self.enter_inputs(0),
                OracleAnswer::No => self.reject(PayjoinError::NotBroadcastable),
                OracleAnswer::Failed => self.reject(PayjoinError::UpstreamUnavailable),
            },
            Stage::Broadcastable { next } => match answer {
                OracleAnswer::No => self.enter_inputs(next + 1),
                OracleAnswer::Yes => self.reject(PayjoinError::OwnershipViolation),
                OracleAnswer::Failed => self.reject(PayjoinError::UpstreamUnavailable),
            },
            Stage::ScriptsChecked { next } => match answer {
                OracleAnswer::No => self.enter_replay(next + 1),
                OracleAnswer::Yes => self.reject(PayjoinError::ReplayedInput),
                OracleAnswer::Failed => self.reject(PayjoinError::UpstreamUnavailable),
            },
            Stage::ReplayChecked { next } => match answer {
                OracleAnswer::Yes => {
                    self.owned_vouts.push(next);
                    self.enter_outputs(next + 1);
                },
                OracleAnswer::No => self.enter_outputs(next + 1),
                OracleAnswer::Failed => self.reject(PayjoinError::UpstreamUnavailable),
            },
            _ => self.reject(PayjoinError::UnexpectedEvent),
        }
    }

    fn on_unspent(&mut self, utxos: Option<Vec<CandidateUtxo>>)
        ensures
            final(self)@ == on_unspent(
                old(self)@,
                match utxos {
                    Some(u) => Some(utxos_view(u@)),
                    None => None,
                },
            ),
    {
        match self.stage {
            Stage::OutputsIdentified => match utxos {
                Some(utxos) => {
                    self.utxos = utxos;
                    self.stage = Stage::Selecting;
                },
                None => self.skip_contribution(SelectionFailure::ListFailed),
            },
            _ => self.reject(PayjoinError::UnexpectedEvent),
        }
    }

    fn on_selected(&mut self, outpoint: Option<OutPoint>)
        ensures
            final(self)@ == on_selected(
                old(self)@,
                match outpoint {
                    Some(o) => Some(o@),
                    None => None,
                },
            ),
    {
        match self.stage {
            Stage::Selecting => match outpoint {
                Some(outpoint) => match lookup(&self.utxos, &outpoint) {
                    Some(utxo) => {
                        self.stage = Stage::Leasing { utxo };
                    },
                    None => self.skip_contribution(SelectionFailure::UnknownOutpoint),
                },
                None => self.skip_contribution(SelectionFailure::NothingChosen),
            },
            _ => self.reject(PayjoinError::UnexpectedEvent),
        }
    }

    fn on_leased(&mut self, taken: bool)
        ensures
            final(self)@ == on_leased(old(self)@, taken),
    {
        match self.stage {
            Stage::Leasing { utxo } => {
                if taken {
                    self.contributed = Some(utxo);
                    self.stage = Stage::Substituting;
                } else {
                    self.skip_contribution(SelectionFailure::LeaseFailed);
                }
            },
            _ => self.reject(PayjoinError::UnexpectedEvent),
        }
    }

    fn on_address(&mut self, script: Option<Vec<u8>>)
        requires
            old(self)@.wf(),
        ensures
            final(self)@ == on_address(
                old(self)@,
                match script {
                    Some(s) => Some(s@),
                    None => None,
                },
            ),
    {
        match self.stage {
            Stage::Substituting => match script {
                Some(script) => {
                    let ghost before = self@;
                    let vout = self.owned_vouts[0];
                    let value = self.proposal.outputs[vout].value;
                    self.proposal.outputs.set(vout, TxOut { value, script_pubkey: script });
                    self.stage = Stage::Signing;
                    assert(self@.outputs =~= before.outputs.update(
                        vout as int,
                        TxOutView { value, script_pubkey: script@ },
                    ));
                },
                None => self.reject(PayjoinError::UpstreamUnavailable),
            },
            _ => self.reject(PayjoinError::UnexpectedEvent),
        }
    }

    fn on_signed(&mut self, psbt: Option<String>)
        ensures
            final(self)@ == on_signed(old(self)@, text_view(psbt)),
    {
        match self.stage {
            Stage::Signing => match psbt {
                Some(psbt) => {
                    self.signed = Some(psbt);
                    self.stage = Stage::Finalizing;
                },
                None => self.reject(PayjoinError::SigningFailure),
            },
            _ => self.reject(PayjoinError::UnexpectedEvent),
        }
    }

    /// Ends the negotiation with the response `encoded`: the node's final
    /// form of the signed transaction, read and written out again in base64.
    /// None, where the node gave no transaction or one that does not parse,
    /// turns the request down. At any stage but the last this is out of
    /// order.
    pub fn finish(&mut self, encoded: Option<String>) -> (action: Action)
        requires
            old(self)@.wf(),
        ensures
            final(self)@.wf(),
            final(self)@ == (if old(self)@.stage is Rejected || old(self)@.stage is Done {
                old(self)@
            } else {
                on_finalized(old(self)@, text_view(encoded))
            }),
            action == pending(final(self)@.stage),
    {
        match self.stage {
            Stage::Rejected(_) => {},
            Stage::Done => {},
            Stage::Finalizing => match encoded {
                Some(encoded) => {
                    self.response = Some(encoded);
                    self.stage = Stage::Done;
                },
                None => self.reject(PayjoinError::UpstreamUnavailable),
            },
            _ => self.reject(PayjoinError::UnexpectedEvent),
        }
        self.action()
    }

    /// Takes the answer to the last action and says what is to be done next.
    pub fn step(&mut self, event: Event) -> (action: Action)
        requires
            old(self)@.wf(),
        ensures
            final(self)@.wf(),
            final(self)@ == step(old(self)@, event@),
            action == pending(final(self)@.stage),
    {
        proof {
            if let EventView::Unspent(Some(utxos)) = event@ {
                assert(utxos.len() == event->Unspent_0.unwrap().len());
            }
            lemma_step_keeps_wf(self@, event@);
        }
        match self.stage {
            Stage::Rejected(_) => self.action(),
            Stage::Done => self.action(),
            _ => {
                match event {
                    Event::Verdict(answer) => self.on_verdict(answer),
                    Event::Unspent(utxos) => self.on_unspent(utxos),
                    Event::Selected(outpoint) => self.on_selected(outpoint),
                    Event::Leased(taken) => self.on_leased(taken),
                    Event::Address(script) => self.on_address(script),
                    Event::Signed(psbt) => self.on_signed(psbt),
                    Event::Finalized(text) => {
                        let encoded = match text {
                            Some(text) => reencode_psbt(text.as_str()),
                            None => None,
                        };
                        return self.finish(encoded);
                    },
                }
                self.action()
            },
        }
    }
}

} // verus!
