//! What holds of every discovery run, whatever the endpoints answer.

use vstd::prelude::*;
use crate::link::identity_marker;
use crate::prober::{ProbeEvent, ProbePhase, ProberView};
use crate::text::{lossy_text, occurs_in};

verus! {

/// The state reached from `start` when `events` are reported in order.
pub open spec fn run(start: ProberView, events: Seq<ProbeEvent>) -> ProberView
    decreases events.len(),
{
    if events.len() == 0 {
        start
    } else {
        run(start, events.drop_last()).step(events.last())
    }
}

/// The candidates that were attempted while `events` were reported, in the
/// order of the attempts: one entry for each time the prober turned to a
/// candidate in order to open it.
pub open spec fn attempts(start: ProberView, events: Seq<ProbeEvent>) -> Seq<int>
    decreases events.len(),
{
    if events.len() == 0 {
        if start.phase == ProbePhase::Opening {
            seq![start.index]
        } else {
            Seq::empty()
        }
    } else {
        let before = run(start, events.drop_last());
        let after = before.step(events.last());
        let earlier = attempts(start, events.drop_last());
        if after.index != before.index && after.phase == ProbePhase::Opening {
            earlier.push(after.index)
        } else {
            earlier
        }
    }
}

/// Whether `event`, reported in `state`, is a read whose text completes the
/// identity token in the current candidate's response.
pub open spec fn completes_token(state: ProberView, event: ProbeEvent) -> bool {
    &&& state.phase == ProbePhase::Reading
    &&& event matches ProbeEvent::Data(bytes)
    &&& bytes@.len() > 0
    &&& occurs_in(identity_marker(), state.response + lossy_text(bytes@))
}

/// Every step leads from a well-formed state to a well-formed state, over
/// the same candidates.
pub proof fn law_step_keeps_wf(state: ProberView, event: ProbeEvent)
    requires
        state.wf(),
    ensures
        state.step(event).wf(),
        state.step(event).candidates == state.candidates,
{
}

/// Every state of a run that starts well-formed is well-formed, over the
/// same candidates.
pub proof fn law_run_keeps_wf(start: ProberView, events: Seq<ProbeEvent>)
    requires
        start.wf(),
    ensures
        run(start, events).wf(),
        run(start, events).candidates == start.candidates,
    decreases events.len(),
{
    if events.len() > 0 {
        law_run_keeps_wf(start, events.drop_last());
    }
}

/// Selection and exhaustion are final: no report changes a finished prober,
/// so in particular nothing is attempted after a candidate was selected.
pub proof fn law_finished_stays(state: ProberView, event: ProbeEvent)
    requires
        state.finished(),
    ensures
        state.step(event) == state,
{
}

/// A report on the pending action leads to an `Open` only by turning to the
/// next candidate: a caller that reports in turn is never told to open the
/// same candidate twice.
pub proof fn law_open_is_a_new_attempt(state: ProberView, event: ProbeEvent)
    requires
        state.wf(),
        state.expects(event),
        state.step(event).phase == ProbePhase::Opening,
    ensures
        state.step(event).index == state.index + 1,
        state.step(event).response == Seq::<char>::empty(),
{
}

/// Candidates are attempted front to back, each at most once: at every
/// moment the attempts made so far are the candidates `0, 1, ..` up to and
/// including the current one, and once the prober is exhausted they are all
/// candidates, each exactly once.
pub proof fn law_attempts_in_order(candidates: Seq<Seq<char>>, events: Seq<ProbeEvent>)
    requires
        candidates.len() <= usize::MAX,
    ensures
        ({
            let start = ProberView::fresh(candidates);
            let end = run(start, events);
            let made = if end.phase == ProbePhase::Exhausted {
                candidates.len() as int
            } else {
                end.index + 1
            };
            attempts(start, events) == Seq::new(made as nat, |i: int| i)
        }),
    decreases events.len(),
{
    let start = ProberView::fresh(candidates);
    if events.len() > 0 {
        law_attempts_in_order(candidates, events.drop_last());
        law_run_keeps_wf(start, events.drop_last());
    }
}

/// A candidate is selected only by a read that completes the identity token:
/// when no report of a run does so, the run does not end in a selection.
pub proof fn law_no_token_no_selection(candidates: Seq<Seq<char>>, events: Seq<ProbeEvent>)
    requires
        candidates.len() <= usize::MAX,
        forall|k: int|
            0 <= k < events.len() ==> !completes_token(
                #[trigger] run(ProberView::fresh(candidates), events.take(k)),
                events[k],
            ),
    ensures
        run(ProberView::fresh(candidates), events).phase != ProbePhase::Found,
    decreases events.len(),
{
    let start = ProberView::fresh(candidates);
    if events.len() > 0 {
        let shorter = events.drop_last();
        assert forall|k: int| 0 <= k < shorter.len() implies !completes_token(
            #[trigger] run(start, shorter.take(k)),
            shorter[k],
        ) by {
            assert(shorter.take(k) =~= events.take(k));
        }
        law_no_token_no_selection(candidates, shorter);
    }
}

/// Exhaustion: a run in which no read completes the identity token and that
/// has come to an end has attempted every candidate exactly once, in order,
/// and selected none.
pub proof fn law_exhaustion(candidates: Seq<Seq<char>>, events: Seq<ProbeEvent>)
    requires
        candidates.len() <= usize::MAX,
        run(ProberView::fresh(candidates), events).finished(),
        forall|k: int|
            0 <= k < events.len() ==> !completes_token(
                #[trigger] run(ProberView::fresh(candidates), events.take(k)),
                events[k],
            ),
    ensures
        run(ProberView::fresh(candidates), events).phase == ProbePhase::Exhausted,
        attempts(ProberView::fresh(candidates), events) == Seq::new(
            candidates.len(),
            |i: int| i,
        ),
{
    law_no_token_no_selection(candidates, events);
    law_attempts_in_order(candidates, events);
}

/// Short-circuit: when a run ends with candidate `i` selected, the attempts
/// made are exactly the candidates `0` to `i`; no later one was touched.
pub proof fn law_short_circuit(candidates: Seq<Seq<char>>, events: Seq<ProbeEvent>)
    requires
        candidates.len() <= usize::MAX,
        run(ProberView::fresh(candidates), events).phase == ProbePhase::Found,
    ensures
        ({
            let end = run(ProberView::fresh(candidates), events);
            &&& 0 <= end.index < candidates.len()
            &&& occurs_in(identity_marker(), end.response)
            &&& attempts(ProberView::fresh(candidates), events) == Seq::new(
                (end.index + 1) as nat,
                |i: int| i,
            )
        }),
{
    let start = ProberView::fresh(candidates);
    law_run_keeps_wf(start, events);
    law_attempts_in_order(candidates, events);
}

} // verus!
