//! Streaming session: from a confirmed endpoint to a flow of samples.
//!
//! As in discovery the session decides and the caller acts: it opens the
//! endpoint, sends the start command, waits a moment and then reads for as
//! long as reads do not fail. Every chunk of bytes goes through the frame
//! decoder; the samples that become complete are handed back for delivery.

use vstd::prelude::*;
use crate::decoder::{decoded, residue, FrameDecoder};
use crate::frame::{Sample, FRAME_LEN};
use crate::link::{BAUD_RATE, SETTLE_MS, STREAM_READ_TIMEOUT_MS};

verus! {

/// Why a session has ended.
#[derive(Clone, Copy, Debug, PartialEq, Eq)]
pub enum StopCause {
    /// The endpoint could not be opened.
    OpenFailed,
    /// A read failed with something other than a timeout.
    ReadFailed,
}

/// Where a session stands.
#[derive(Clone, Copy, Debug, PartialEq, Eq)]
pub enum StreamPhase {
    /// The endpoint is to be opened.
    Opening,
    /// The connection is open; the start command is to be sent.
    Starting,
    /// The start command was dealt with; the device is given a moment.
    Settling,
    /// Bytes are being read and decoded.
    Streaming,
    /// The session is over. Final.
    Stopped(StopCause),
}

/// What the caller reports back after carrying out an action.
#[derive(Debug, PartialEq, Eq)]
pub enum StreamEvent {
    /// The endpoint could not be opened.
    OpenFailed,
    /// The endpoint is open.
    Opened,
    /// The start command could not be written.
    SendFailed,
    /// The start command is on the wire.
    Sent,
    /// The settling delay has passed.
    Settled,
    /// A read returned these bytes (possibly none).
    Data(Vec<u8>),
    /// A read ran into its timeout without data.
    ReadTimedOut,
    /// A read failed for any other reason.
    ReadFailed,
}

/// What the caller is to do next.
#[derive(Clone, Copy, Debug, PartialEq, Eq)]
pub enum StreamAction {
    /// Open the endpoint at `baud` bits per second, with reads that give up
    /// after `read_timeout_ms`, and report `Opened` or `OpenFailed`.
    Open { baud: u32, read_timeout_ms: u64 },
    /// Write the start command and report `Sent` or `SendFailed`.
    SendStart,
    /// Wait for `millis` milliseconds and report `Settled`.
    Settle { millis: u64 },
    /// Make one bounded read and report `Data`, `ReadTimedOut` or
    /// `ReadFailed`.
    Read,
    /// Release the connection and return; the session is over.
    Stop(StopCause),
}

/// The session as a mathematical value.
pub struct SessionView {
    pub phase: StreamPhase,
    /// Whether the start command went out. A failed write is recorded here
    /// and does not end the session.
    pub start_sent: bool,
    /// Bytes read so far that belong to no emitted or rejected window.
    pub held: Seq<u8>,
}

impl SessionView {
    /// The state before anything has been done.
    pub open spec fn fresh() -> SessionView {
        SessionView { phase: StreamPhase::Opening, start_sent: false, held: Seq::empty() }
    }

    /// What every state that a session can be in satisfies.
    pub open spec fn wf(self) -> bool {
        &&& self.held.len() < FRAME_LEN
        &&& (self.phase != StreamPhase::Streaming ==> self.held.len() == 0)
    }

    /// The action that the session is waiting to hear about.
    pub open spec fn pending(self) -> StreamAction {
        match self.phase {
            StreamPhase::Opening => StreamAction::Open {
                baud: BAUD_RATE,
                read_timeout_ms: STREAM_READ_TIMEOUT_MS,
            },
            StreamPhase::Starting => StreamAction::SendStart,
            StreamPhase::Settling => StreamAction::Settle { millis: SETTLE_MS },
            StreamPhase::Streaming => StreamAction::Read,
            StreamPhase::Stopped(cause) => StreamAction::Stop(cause),
        }
    }

    /// The state after `event`. A read timeout changes nothing, and neither
    /// does an event that does not answer the pending action.
    pub open spec fn step(self, event: StreamEvent) -> SessionView {
        match (self.phase, event) {
            (StreamPhase::Opening, StreamEvent::Opened) => SessionView {
                phase: StreamPhase::Starting,
                ..self
            },
            (StreamPhase::Opening, StreamEvent::OpenFailed) => SessionView {
                phase: StreamPhase::Stopped(StopCause::OpenFailed),
                ..self
            },
            (StreamPhase::Starting, StreamEvent::Sent) => SessionView {
                phase: StreamPhase::Settling,
                start_sent: true,
                ..self
            },
            (StreamPhase::Starting, StreamEvent::SendFailed) => SessionView {
                phase: StreamPhase::Settling,
                start_sent: false,
                ..self
            },
            (StreamPhase::Settling, StreamEvent::Settled) => SessionView {
                phase: StreamPhase::Streaming,
                ..self
            },
            (StreamPhase::Streaming, StreamEvent::Data(bytes)) => SessionView {
                held: residue(self.held + bytes@),
                ..self
            },
            (StreamPhase::Streaming, StreamEvent::ReadFailed) => SessionView {
                phase: StreamPhase::Stopped(StopCause::ReadFailed),
                held: Seq::empty(),
                ..self
            },
            _ => self,
        }
    }

    /// The samples that `event` makes ready for delivery, oldest first.
    pub open spec fn delivered(self, event: StreamEvent) -> Seq<Sample> {
        match (self.phase, event) {
            (StreamPhase::Streaming, StreamEvent::Data(bytes)) => decoded(self.held + bytes@),
            _ => Seq::empty(),
        }
    }
}

/// Runs one streaming session, step by step.
pub struct Session {
    phase: StreamPhase,
    start_sent: bool,
    decoder: FrameDecoder,
}

impl View for Session {
    type V = SessionView;

    closed spec fn view(&self) -> SessionView {
        SessionView {
            phase: self.phase,
            start_sent: self.start_sent,
            held: self.decoder.pending(),
        }
    }
}

impl Session {
    #[verifier::type_invariant]
    spec fn inv(&self) -> bool {
        self@.wf()
    }

    /// A session that has not begun.
    pub fn new() -> (session: Session)
        ensures
            session@ == SessionView::fresh(),
            session@.wf(),
    {
        Session { phase: StreamPhase::Opening, start_sent: false, decoder: FrameDecoder::new() }
    }

    /// The action that the caller is expected to carry out now.
    pub fn pending(&self) -> (action: StreamAction)
        ensures
            action == self@.pending(),
    {
        match self.phase {
            StreamPhase::Opening => StreamAction::Open {
                baud: BAUD_RATE,
                read_timeout_ms: STREAM_READ_TIMEOUT_MS,
            },
            StreamPhase::Starting => StreamAction::SendStart,
            StreamPhase::Settling => StreamAction::Settle { millis: SETTLE_MS },
            StreamPhase::Streaming => StreamAction::Read,
            StreamPhase::Stopped(cause) => StreamAction::Stop(cause),
        }
    }

    /// The phase the session is in.
    pub fn phase(&self) -> (phase: StreamPhase)
        ensures
            phase == self@.phase,
    {
        self.phase
    }

    /// Whether the start command went out.
    pub fn start_sent(&self) -> (sent: bool)
        ensures
            sent == self@.start_sent,
    {
        self.start_sent
    }

    /// Takes the caller's report on the pending action. The answer holds the
    /// samples to deliver now, oldest first, and the action to carry out
    /// once they are delivered.
    pub fn step(&mut self, event: StreamEvent) -> (reply: (Vec<Sample>, StreamAction))
        ensures
            final(self)@ == old(self)@.step(event),
            reply.0@ == old(self)@.delivered(event),
            reply.1 == final(self)@.pending(),
            final(self)@.wf(),
    {
        proof {
            use_type_invariant(&*self);
        }
        let mut samples: Vec<Sample> = Vec::new();
        match self.phase {
            StreamPhase::Opening => match event {
                StreamEvent::Opened => {
                    self.phase = StreamPhase::Starting;
                },
                StreamEvent::OpenFailed => {
                    self.phase = StreamPhase::Stopped(StopCause::OpenFailed);
                },
                _ => {},
            },
            StreamPhase::Starting => match event {
                StreamEvent::Sent => {
                    self.start_sent = true;
                    self.phase = StreamPhase::Settling;
                },
                StreamEvent::SendFailed => {
                    self.start_sent = false;
                    self.phase = StreamPhase::Settling;
                },
                _ => {},
            },
            StreamPhase::Settling => match event {
                StreamEvent::Settled => {
                    self.phase = StreamPhase::Streaming;
                },
                _ => {},
            },
            StreamPhase::Streaming => match event {
                StreamEvent::Data(bytes) => {
                    let mut decoder = FrameDecoder::new();
                    std::mem::swap(&mut decoder, &mut self.decoder);
                    samples = decoder.feed(bytes.as_slice());
                    self.decoder = decoder;
                },
                StreamEvent::ReadFailed => {
                    self.decoder = FrameDecoder::new();
                    self.phase = StreamPhase::Stopped(StopCause::ReadFailed);
                },
                _ => {},
            },
            StreamPhase::Stopped(_) => {},
        }
        let action = self.pending();
        (samples, action)
    }
}

} // verus!
