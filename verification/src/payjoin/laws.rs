//! What holds of every negotiation, whatever the events.

use crate::payjoin::model::{
    Action, CandidateUtxoView, EventView, NegotiationView, OracleAnswer, OutPointView,
    PayjoinError, ProposalView, Stage,
};
use crate::payjoin::transition::{
    at, begun, kind_of, lemma_find_utxo, lemma_step_keeps_wf, pending, psbt_reencoded, step,
};
use vstd::prelude::*;

verus! {

/// The negotiation after a sequence of events, taken in order.
pub open spec fn run(v: NegotiationView, events: Seq<EventView>) -> NegotiationView
    decreases events.len(),
{
    if events.len() == 0 {
        v
    } else {
        step(run(v, events.drop_last()), events.last())
    }
}

/// The place of a stage in the order of the pipeline.
pub open spec fn rank(stage: Stage) -> int {
    match stage {
        Stage::Parsed => 0,
        Stage::Broadcastable { .. } => 1,
        Stage::ScriptsChecked { .. } => 2,
        Stage::ReplayChecked { .. } => 3,
        Stage::OutputsIdentified => 4,
        Stage::Selecting => 5,
        Stage::Leasing { .. } => 6,
        Stage::Substituting => 7,
        Stage::Signing => 8,
        Stage::Finalizing => 9,
        Stage::Done => 10,
        Stage::Rejected(_) => 11,
    }
}

/// How far a stage that goes through inputs or outputs one by one has come.
pub open spec fn progress(stage: Stage) -> int {
    match stage {
        Stage::Broadcastable { next } => next as int,
        Stage::ScriptsChecked { next } => next as int,
        Stage::ReplayChecked { next } => next as int,
        _ => 0,
    }
}

/// A rejection is final: whatever events follow, the negotiation stays turned
/// down for the same reason, and the caller is told to reject and nothing
/// else. No oracle is asked and nothing is selected, leased or signed after
/// it.
pub proof fn law_rejection_is_final(v: NegotiationView, events: Seq<EventView>)
    requires
        v.stage is Rejected,
    ensures
        run(v, events) == v,
        pending(run(v, events).stage) == Action::Reject(v.stage->Rejected_0),
    decreases events.len(),
{
    if events.len() > 0 {
        law_rejection_is_final(v, events.drop_last());
    }
}

/// An original transaction that fails the broadcast test never reaches the
/// ownership check: the negotiation is turned down at once, as not
/// broadcastable where the node said no and as upstream failure where the
/// node could not be asked, and whatever events follow, the caller is never
/// told to ask the ownership oracle.
pub proof fn law_broadcast_failure_ends_negotiation(
    v: NegotiationView,
    answer: OracleAnswer,
    events: Seq<EventView>,
)
    requires
        v.stage is Parsed,
        answer != OracleAnswer::Yes,
    ensures
        run(step(v, EventView::Verdict(answer)), events).stage == Stage::Rejected(
            if answer == OracleAnswer::No {
                PayjoinError::NotBroadcastable
            } else {
                PayjoinError::UpstreamUnavailable
            },
        ),
        !(pending(run(step(v, EventView::Verdict(answer)), events).stage) is IsInputOwned),
{
    law_rejection_is_final(step(v, EventView::Verdict(answer)), events);
}

/// An input that the ownership oracle calls the receiver's own ends the
/// negotiation with an ownership violation, and whatever events follow,
/// nothing is selected, leased or signed.
pub proof fn law_owned_input_ends_negotiation(v: NegotiationView, events: Seq<EventView>)
    requires
        v.stage is Broadcastable,
    ensures
        run(step(v, EventView::Verdict(OracleAnswer::Yes)), events).stage == Stage::Rejected(
            PayjoinError::OwnershipViolation,
        ),
        pending(run(step(v, EventView::Verdict(OracleAnswer::Yes)), events).stage)
            == Action::Reject(PayjoinError::OwnershipViolation),
{
    law_rejection_is_final(step(v, EventView::Verdict(OracleAnswer::Yes)), events);
}

/// The stages run strictly in order: a step never goes back to an earlier
/// stage, and where it stays within a stage that goes through the inputs or
/// outputs, it has moved on to a later one of them. So no check is skipped
/// and none is made twice, and the wallet is asked to sign once at most.
pub proof fn law_stages_run_in_order(v: NegotiationView, event: EventView)
    requires
        v.wf(),
        !(v.stage is Rejected || v.stage is Done),
    ensures
        rank(step(v, event).stage) > rank(v.stage) || (rank(step(v, event).stage) == rank(v.stage)
            && progress(step(v, event).stage) > progress(v.stage)),
{
    if let EventView::Selected(Some(outpoint)) = event {
        lemma_find_utxo(v.utxos, outpoint, 0);
    }
}

/// How many oracle answers a negotiation that is still being checked has
/// taken: one for the broadcast test, then one for each input that is known
/// not to be the receiver's, one for each input that is known not to have
/// been seen, and one for each output that is sorted.
pub open spec fn answers_taken(v: NegotiationView) -> int {
    match v.stage {
        Stage::Parsed => 0,
        Stage::Broadcastable { next } => 1 + next,
        Stage::ScriptsChecked { next } => 1 + v.inputs.len() + next,
        Stage::ReplayChecked { next } => 1 + 2 * v.inputs.len() + next,
        _ => 1 + 2 * v.inputs.len() + v.outputs.len() as int,
    }
}

/// The answer that lets a negotiation go on after `taken` answers: yes to the
/// broadcast test, no for every input to both questions about it, and either
/// of the two for an output.
pub open spec fn lets_pass(inputs: nat, taken: int, event: EventView) -> bool {
    match event {
        EventView::Verdict(answer) => if taken == 0 {
            answer == OracleAnswer::Yes
        } else if taken <= 2 * inputs {
            answer == OracleAnswer::No
        } else {
            answer != OracleAnswer::Failed
        },
        _ => false,
    }
}

/// While the checks run, only the answer that passes the check in hand moves
/// a negotiation on, and it moves it on by that one check: every other event
/// turns the negotiation down.
pub proof fn law_only_a_passing_answer_moves_on(v: NegotiationView, event: EventView)
    requires
        v.wf(),
        rank(v.stage) <= 3,
    ensures
        !(step(v, event).stage is Rejected) ==> {
            &&& lets_pass(v.inputs.len(), answers_taken(v), event)
            &&& answers_taken(step(v, event)) == answers_taken(v) + 1
            &&& rank(step(v, event).stage) <= 4
        },
{
}

/// No check is skipped. A negotiation that has come to know the receiver's
/// outputs has taken exactly one answer for the broadcast test, one for each
/// input to each of the two questions about it, and one for each output, in
/// that order, and each of them let it pass.
pub proof fn law_no_check_is_skipped(request: ProposalView, events: Seq<EventView>)
    requires
        request.inputs.len() <= usize::MAX,
        request.outputs.len() <= usize::MAX,
        forall|i: int| 0 <= i < events.len() ==> (#[trigger] events[i]).wf(),
    ensures
        ({
            let v = run(begun(false, Some(request)), events);
            &&& v.wf()
            &&& v.inputs == request.inputs
            &&& !(v.stage is Rejected) && rank(v.stage) <= 4 ==> {
                &&& events.len() == answers_taken(v)
                &&& forall|i: int|
                    0 <= i < events.len() ==> lets_pass(
                        request.inputs.len(),
                        i,
                        #[trigger] events[i],
                    )
            }
            &&& v.stage is OutputsIdentified ==> events.len() == 1 + 2 * request.inputs.len()
                + request.outputs.len()
        }),
    decreases events.len(),
{
    let start = begun(false, Some(request));
    if events.len() > 0 {
        let init = events.drop_last();
        let before = run(start, init);
        let after = step(before, events.last());
        law_no_check_is_skipped(request, init);
        lemma_step_keeps_wf(before, events.last());
        if !(before.stage is Rejected || before.stage is Done) {
            law_stages_run_in_order(before, events.last());
            assert(after.inputs == before.inputs);
            if !(after.stage is Rejected) && rank(after.stage) <= 4 {
                law_only_a_passing_answer_moves_on(before, events.last());
                assert forall|i: int| 0 <= i < events.len() implies lets_pass(
                    request.inputs.len(),
                    i,
                    #[trigger] events[i],
                ) by {
                    if i < init.len() {
                        assert(events[i] == init[i]);
                    }
                }
            }
            if after.stage is OutputsIdentified {
                assert(after.outputs == before.outputs);
                lemma_checks_keep_outputs(request, init);
            }
        }
    }
}

/// While the checks run, the outputs are those of the request.
pub proof fn lemma_checks_keep_outputs(request: ProposalView, events: Seq<EventView>)
    ensures
        ({
            let v = run(begun(false, Some(request)), events);
            rank(v.stage) <= 4 ==> v.outputs == request.outputs
        }),
    decreases events.len(),
{
    if events.len() > 0 {
        let before = run(begun(false, Some(request)), events.drop_last());
        lemma_checks_keep_outputs(request, events.drop_last());
        if !(before.stage is Rejected || before.stage is Done) && rank(before.stage) > 4 {
            lemma_late_stages_stay_late(before, events.last());
        }
    }
}

/// A negotiation past the checks never comes back to them.
pub proof fn lemma_late_stages_stay_late(v: NegotiationView, event: EventView)
    requires
        rank(v.stage) > 4,
    ensures
        rank(step(v, event).stage) > 4,
{
}

/// Inputs that are all of known kinds but not all of one kind are turned
/// down as mixed once the last of them has passed the ownership check,
/// whatever the oracles have said so far: a taproot input beside a segwit
/// version 0 input is such a mix.
pub proof fn law_mixed_inputs_are_rejected(v: NegotiationView, i: int, j: int)
    requires
        v.wf(),
        v.stage == (Stage::Broadcastable { next: (v.inputs.len() - 1) as usize }),
        forall|k: int| 0 <= k < v.inputs.len() ==> kind_of(#[trigger] v.inputs[k]) is Ok,
        0 <= i < v.inputs.len(),
        0 <= j < v.inputs.len(),
        kind_of(v.inputs[i]) != kind_of(v.inputs[j]),
    ensures
        step(v, EventView::Verdict(OracleAnswer::No)).stage == Stage::Rejected(
            PayjoinError::MixedScripts,
        ),
{
    if kind_of(v.inputs[i]) == kind_of(v.inputs[0]) {
        assert(kind_of(v.inputs[j]) != kind_of(v.inputs[0]));
    }
}

/// Contributing an input is optional. A proposal that has passed every check
/// finalizes with the sender's inputs alone when the wallet lists no output,
/// whatever the choice of input then says: the inputs are those of the
/// original transaction, nothing is contributed, and the response is the
/// node's final form of the signed transaction.
pub proof fn law_empty_wallet_still_finalizes(
    v: NegotiationView,
    choice: Option<OutPointView>,
    script: Seq<u8>,
    signed: Seq<char>,
    finalized: Seq<char>,
)
    requires
        v.wf(),
        v.stage is OutputsIdentified,
        psbt_reencoded(finalized) is Some,
    ensures
        ({
            let done = run(
                v,
                seq![
                    EventView::Unspent(Some(Seq::<CandidateUtxoView>::empty())),
                    EventView::Selected(choice),
                    EventView::Address(Some(script)),
                    EventView::Signed(Some(signed)),
                    EventView::Finalized(Some(finalized)),
                ],
            );
            &&& done.stage is Done
            &&& done.inputs == v.inputs
            &&& done.contributed is None
            &&& done.response == psbt_reencoded(finalized)
        }),
{
    let e0 = EventView::Unspent(Some(Seq::<CandidateUtxoView>::empty()));
    let e1 = EventView::Selected(choice);
    let e2 = EventView::Address(Some(script));
    let e3 = EventView::Signed(Some(signed));
    let e4 = EventView::Finalized(Some(finalized));
    let events = seq![e0, e1, e2, e3, e4];
    let s0 = Seq::<EventView>::empty();
    let s1 = seq![e0];
    let s2 = seq![e0, e1];
    let s3 = seq![e0, e1, e2];
    let s4 = seq![e0, e1, e2, e3];
    assert(events.drop_last() =~= s4);
    assert(s4.drop_last() =~= s3);
    assert(s3.drop_last() =~= s2);
    assert(s2.drop_last() =~= s1);
    assert(s1.drop_last() =~= s0);
    let v1 = step(v, e0);
    assert(run(v, s0) == v);
    assert(run(v, s1) == v1);
    assert(v1.stage is Selecting && v1.utxos.len() == 0 && v1.contributed is None);
    let v2 = step(v1, e1);
    assert(run(v, s2) == v2);
    assert(v2.stage is Substituting && v2.contributed is None);
    let v3 = step(v2, e2);
    assert(run(v, s3) == v3);
    let v4 = step(v3, e3);
    assert(run(v, s4) == v4);
    assert(run(v, events) == step(v4, e4));
}

/// A negotiation that contributes an input has leased it first: the output
/// contributed is one of those listed, and only the answer that the lease
/// was taken makes it the contribution.
pub proof fn law_contribution_needs_lease(v: NegotiationView, event: EventView)
    requires
        v.wf(),
        v.contributed is None,
    ensures
        step(v, event).contributed is Some ==> v.stage is Leasing && event == EventView::Leased(
            true,
        ) && step(v, event).contributed == Some(v.stage->utxo),
{
}

} // verus!
