//! What holds of every streaming session, however the reads fall.

use vstd::prelude::*;
use crate::decoder::{decoded, lemma_residue_is_short, residue};
use crate::frame::Sample;
use crate::resync::law_split_in_two;
use crate::session::{SessionView, StreamEvent, StreamPhase};

verus! {

/// The state reached from `start` when `events` are reported in order.
pub open spec fn run(start: SessionView, events: Seq<StreamEvent>) -> SessionView
    decreases events.len(),
{
    if events.len() == 0 {
        start
    } else {
        run(start, events.drop_last()).step(events.last())
    }
}

/// All samples handed out for delivery while `events` were reported, in the
/// order in which they were handed out.
pub open spec fn deliveries(start: SessionView, events: Seq<StreamEvent>) -> Seq<Sample>
    decreases events.len(),
{
    if events.len() == 0 {
        Seq::empty()
    } else {
        deliveries(start, events.drop_last()) + run(start, events.drop_last()).delivered(
            events.last(),
        )
    }
}

/// The bytes that `event` brings in: the payload of a read, nothing otherwise.
pub open spec fn payload(event: StreamEvent) -> Seq<u8> {
    match event {
        StreamEvent::Data(bytes) => bytes@,
        _ => Seq::empty(),
    }
}

/// The bytes that `events` bring in, in order.
pub open spec fn bytes_of(events: Seq<StreamEvent>) -> Seq<u8>
    decreases events.len(),
{
    if events.len() == 0 {
        Seq::empty()
    } else {
        bytes_of(events.drop_last()) + payload(events.last())
    }
}

/// Every step leads from a well-formed state to a well-formed state.
pub proof fn law_step_keeps_wf(state: SessionView, event: StreamEvent)
    requires
        state.wf(),
    ensures
        state.step(event).wf(),
{
    if let StreamEvent::Data(bytes) = event {
        lemma_residue_is_short(state.held + bytes@);
    }
}

/// A stopped session stays stopped and delivers nothing more.
pub proof fn law_stopped_stays(state: SessionView, event: StreamEvent)
    requires
        state.phase is Stopped,
    ensures
        state.step(event) == state,
        state.delivered(event) == Seq::<Sample>::empty(),
{
}

/// A read timeout is no event at all: the session is as before, and nothing
/// is delivered.
pub proof fn law_timeout_is_no_error(state: SessionView)
    ensures
        state.step(StreamEvent::ReadTimedOut) == state,
        state.delivered(StreamEvent::ReadTimedOut) == Seq::<Sample>::empty(),
{
}

/// While no read fails, a streaming session delivers exactly the samples of
/// the byte stream it has read, in stream order, one per frame: how the
/// stream fell into reads, and how many reads timed out in between, makes no
/// difference.
pub proof fn law_stream_is_decoded_whole(start: SessionView, events: Seq<StreamEvent>)
    requires
        start.wf(),
        start.phase == StreamPhase::Streaming,
        forall|k: int| 0 <= k < events.len() ==> events[k] != StreamEvent::ReadFailed,
    ensures
        run(start, events).phase == StreamPhase::Streaming,
        deliveries(start, events) == decoded(start.held + bytes_of(events)),
        run(start, events).held == residue(start.held + bytes_of(events)),
    decreases events.len(),
{
    if events.len() > 0 {
        let earlier = events.drop_last();
        let last = events.last();
        law_stream_is_decoded_whole(start, earlier);
        let read = start.held + bytes_of(earlier);
        assert(start.held + bytes_of(events) =~= read + payload(last));
        law_split_in_two(read, payload(last));
    }
}

} // verus!
