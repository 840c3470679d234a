//! Device discovery: which of several candidate endpoints hosts the device.
//!
//! The prober decides; the caller acts. Each decision is a [`ProbeAction`]
//! for the caller to carry out on the serial link, and what came of it goes
//! back in as a [`ProbeEvent`]. Candidates are tried in the order given, one
//! pass only, and the first one whose reply holds the identity token wins.

use vstd::prelude::*;
use vstd::string::StringExecFns;
use crate::link::{
    identity_marker, identity_token, BAUD_RATE, PROBE_READ_TIMEOUT_MS, PROBE_WINDOW_MS,
};
use crate::text::{
    ascii_text, contains_text, decode_lossy, is_ascii_bytes, lossy_text, occurs_in,
};

verus! {

/// Where the prober stands with the current candidate.
#[derive(Clone, Copy, Debug, PartialEq, Eq)]
pub enum ProbePhase {
    /// The candidate is to be opened.
    Opening,
    /// The connection is open; the identification request is to be sent.
    Sending,
    /// The request is out; the time since then is to be measured.
    Timing,
    /// The window is still open; one read is to be made.
    Reading,
    /// The current candidate identified itself. Final.
    Found,
    /// Every candidate was tried and none identified itself. Final.
    Exhausted,
}

/// What the caller reports back after carrying out an action.
#[derive(Debug, PartialEq, Eq)]
pub enum ProbeEvent {
    /// The endpoint could not be opened.
    OpenFailed,
    /// The endpoint is open.
    Opened,
    /// The identification request could not be written.
    SendFailed,
    /// The identification request is on the wire; the clock starts now.
    Sent,
    /// Milliseconds that have passed since the request was sent.
    Clock(u64),
    /// A read returned these bytes (possibly none).
    Data(Vec<u8>),
    /// A read ran into its timeout without data.
    ReadTimedOut,
    /// A read failed for any other reason.
    ReadFailed,
}

/// What the caller is to do next.
#[derive(Clone, Copy, Debug, PartialEq, Eq)]
pub enum ProbeAction {
    /// Release any open connection, then open the candidate with index
    /// `candidate` at `baud` bits per second, with reads that give up after
    /// `read_timeout_ms`, and report `Opened` or `OpenFailed`.
    Open { candidate: usize, baud: u32, read_timeout_ms: u64 },
    /// Write the identification request, make sure it has left, and report
    /// `Sent` or `SendFailed`.
    Send,
    /// Report the time since `Sent` as `Clock`.
    CheckClock,
    /// Make one bounded read and report `Data`, `ReadTimedOut` or `ReadFailed`.
    Read,
    /// Release the connection: the candidate with this index is the device.
    Select(usize),
    /// Release any open connection: no candidate is the device.
    GiveUp,
}

/// The prober as a mathematical value.
pub struct ProberView {
    /// Endpoint names in the order in which they are tried.
    pub candidates: Seq<Seq<char>>,
    /// Index of the current candidate; the number of candidates once all
    /// have been tried.
    pub index: int,
    pub phase: ProbePhase,
    /// Everything the current candidate has answered so far, as text.
    pub response: Seq<char>,
}

impl ProberView {
    /// The state before anything has been done.
    pub open spec fn fresh(candidates: Seq<Seq<char>>) -> ProberView {
        ProberView {
            candidates,
            index: 0,
            phase: if candidates.len() == 0 {
                ProbePhase::Exhausted
            } else {
                ProbePhase::Opening
            },
            response: Seq::empty(),
        }
    }

    /// What every state that the prober can be in satisfies.
    pub open spec fn wf(self) -> bool {
        &&& self.candidates.len() <= usize::MAX
        &&& 0 <= self.index <= self.candidates.len()
        &&& (self.phase == ProbePhase::Exhausted <==> self.index == self.candidates.len())
        &&& (self.phase == ProbePhase::Found <==> occurs_in(identity_marker(), self.response))
        &&& (self.phase == ProbePhase::Opening || self.phase == ProbePhase::Sending || self.phase
            == ProbePhase::Exhausted ==> self.response.len() == 0)
    }

    /// Whether a final state has been reached.
    pub open spec fn finished(self) -> bool {
        self.phase == ProbePhase::Found || self.phase == ProbePhase::Exhausted
    }

    /// The action that the prober is waiting to hear about.
    pub open spec fn pending(self) -> ProbeAction {
        match self.phase {
            ProbePhase::Opening => ProbeAction::Open {
                candidate: self.index as usize,
                baud: BAUD_RATE,
                read_timeout_ms: PROBE_READ_TIMEOUT_MS,
            },
            ProbePhase::Sending => ProbeAction::Send,
            ProbePhase::Timing => ProbeAction::CheckClock,
            ProbePhase::Reading => ProbeAction::Read,
            ProbePhase::Found => ProbeAction::Select(self.index as usize),
            ProbePhase::Exhausted => ProbeAction::GiveUp,
        }
    }

    /// The same candidate in another phase.
    pub open spec fn at(self, phase: ProbePhase) -> ProberView {
        ProberView { phase, ..self }
    }

    /// Gives up on the current candidate and turns to the next one, if any.
    pub open spec fn advance(self) -> ProberView {
        ProberView {
            candidates: self.candidates,
            index: self.index + 1,
            phase: if self.index + 1 < self.candidates.len() {
                ProbePhase::Opening
            } else {
                ProbePhase::Exhausted
            },
            response: Seq::empty(),
        }
    }

    /// Takes note of `text` read from the current candidate: it is appended
    /// to the response, and the candidate is selected as soon as the
    /// response holds the identity token. Outside of `Reading` nothing
    /// changes.
    pub open spec fn absorb(self, text: Seq<char>) -> ProberView {
        if self.phase == ProbePhase::Reading {
            let response = self.response + text;
            ProberView {
                phase: if occurs_in(identity_marker(), response) {
                    ProbePhase::Found
                } else {
                    ProbePhase::Timing
                },
                response,
                ..self
            }
        } else {
            self
        }
    }

    /// Whether `event` is a report on the action that is pending.
    pub open spec fn expects(self, event: ProbeEvent) -> bool {
        match self.phase {
            ProbePhase::Opening => event is Opened || event is OpenFailed,
            ProbePhase::Sending => event is Sent || event is SendFailed,
            ProbePhase::Timing => event is Clock,
            ProbePhase::Reading => event is Data || event is ReadTimedOut || event is ReadFailed,
            ProbePhase::Found => false,
            ProbePhase::Exhausted => false,
        }
    }

    /// The state after `event`, where `text` is what the bytes of the event,
    /// if it carries any, read as. An event that does not answer the pending
    /// action changes nothing.
    pub open spec fn step_with(self, event: ProbeEvent, text: Seq<char>) -> ProberView {
        match (self.phase, event) {
            (ProbePhase::Opening, ProbeEvent::Opened) => self.at(ProbePhase::Sending),
            (ProbePhase::Opening, ProbeEvent::OpenFailed) => self.advance(),
            (ProbePhase::Sending, ProbeEvent::Sent) => self.at(ProbePhase::Timing),
            (ProbePhase::Sending, ProbeEvent::SendFailed) => self.advance(),
            (ProbePhase::Timing, ProbeEvent::Clock(elapsed_ms)) => if elapsed_ms
                < PROBE_WINDOW_MS {
                self.at(ProbePhase::Reading)
            } else {
                self.advance()
            },
            (ProbePhase::Reading, ProbeEvent::Data(bytes)) => if bytes@.len() == 0 {
                self.at(ProbePhase::Timing)
            } else {
                self.absorb(text)
            },
            (ProbePhase::Reading, ProbeEvent::ReadTimedOut) => self.at(ProbePhase::Timing),
            (ProbePhase::Reading, ProbeEvent::ReadFailed) => self.advance(),
            _ => self,
        }
    }

    /// The state after `event`. Bytes that were read count as the text that
    /// permissive decoding makes of them, each read on its own.
    pub open spec fn step(self, event: ProbeEvent) -> ProberView {
        self.step_with(event, lossy_text(payload(event)))
    }
}

/// The bytes that `event` carries: the payload of a read, nothing otherwise.
pub open spec fn payload(event: ProbeEvent) -> Seq<u8> {
    match event {
        ProbeEvent::Data(bytes) => bytes@,
        _ => Seq::empty(),
    }
}

/// Position, phase and collected reply: the part of a prober that changes.
struct Cursor {
    index: usize,
    phase: ProbePhase,
    response: String,
}

/// Decides, step by step, which candidate endpoint hosts the device.
pub struct Prober {
    candidates: Vec<String>,
    cursor: Cursor,
}

impl View for Prober {
    type V = ProberView;

    closed spec fn view(&self) -> ProberView {
        ProberView {
            candidates: self.candidates.deep_view(),
            index: self.cursor.index as int,
            phase: self.cursor.phase,
            response: self.cursor.response@,
        }
    }
}

impl Prober {
    #[verifier::type_invariant]
    spec fn inv(&self) -> bool {
        self@.wf()
    }

    /// A prober for `candidates`, which are tried front to back.
    pub fn new(candidates: Vec<String>) -> (prober: Prober)
        ensures
            prober@ == ProberView::fresh(candidates.deep_view()),
            prober@.wf(),
    {
        let phase = if candidates.len() == 0 {
            ProbePhase::Exhausted
        } else {
            ProbePhase::Opening
        };
        Prober { candidates, cursor: Cursor { index: 0, phase, response: String::new() } }
    }

    /// The action that the caller is expected to carry out now.
    pub fn pending(&self) -> (action: ProbeAction)
        ensures
            action == self@.pending(),
    {
        match self.cursor.phase {
            ProbePhase::Opening => ProbeAction::Open {
                candidate: self.cursor.index,
                baud: BAUD_RATE,
                read_timeout_ms: PROBE_READ_TIMEOUT_MS,
            },
            ProbePhase::Sending => ProbeAction::Send,
            ProbePhase::Timing => ProbeAction::CheckClock,
            ProbePhase::Reading => ProbeAction::Read,
            ProbePhase::Found => ProbeAction::Select(self.cursor.index),
            ProbePhase::Exhausted => ProbeAction::GiveUp,
        }
    }

    /// The phase the prober is in.
    pub fn phase(&self) -> (phase: ProbePhase)
        ensures
            phase == self@.phase,
    {
        self.cursor.phase
    }

    /// Number of candidates.
    pub fn candidate_count(&self) -> (n: usize)
        ensures
            n == self@.candidates.len(),
    {
        self.candidates.len()
    }

    /// The name of the candidate with index `i`, if there is one.
    pub fn candidate(&self, i: usize) -> (name: Option<&String>)
        ensures
            match name {
                Some(n) => i < self@.candidates.len() && n@ == self@.candidates[i as int],
                None => i >= self@.candidates.len(),
            },
    {
        if i < self.candidates.len() {
            Some(&self.candidates[i])
        } else {
            None
        }
    }

    /// The endpoint that identified itself: `Some` exactly in phase `Found`.
    pub fn selected(&self) -> (name: Option<&String>)
        ensures
            match name {
                Some(n) => self@.phase == ProbePhase::Found && n@
                    == self@.candidates[self@.index],
                None => self@.phase != ProbePhase::Found,
            },
    {
        proof {
            use_type_invariant(self);
        }
        match self.cursor.phase {
            ProbePhase::Found => Some(&self.candidates[self.cursor.index]),
            _ => None,
        }
    }

    /// What the current candidate has answered so far.
    pub fn response(&self) -> (text: &str)
        ensures
            text@ == self@.response,
    {
        self.cursor.response.as_str()
    }

    /// Moves the current candidate into `phase`, one of the phases between
    /// opening and selection.
    fn enter(&mut self, phase: ProbePhase)
        requires
            !old(self)@.finished(),
            phase == ProbePhase::Sending || phase == ProbePhase::Timing || phase
                == ProbePhase::Reading,
            phase == ProbePhase::Sending ==> old(self)@.response.len() == 0,
        ensures
            final(self)@ == old(self)@.at(phase),
    {
        proof {
            use_type_invariant(&*self);
        }
        self.cursor.phase = phase;
    }

    /// Drops the current candidate and turns to the next one, if any.
    fn advance(&mut self)
        requires
            !old(self)@.finished(),
        ensures
            final(self)@ == old(self)@.advance(),
    {
        proof {
            use_type_invariant(&*self);
        }
        let next: usize = self.cursor.index + 1;
        let phase = if next < self.candidates.len() {
            ProbePhase::Opening
        } else {
            ProbePhase::Exhausted
        };
        self.cursor = Cursor { index: next, phase, response: String::new() };
    }

    /// Takes note of `text`, which was read from the current candidate: it
    /// is appended to the response, and the candidate is selected as soon as
    /// the response holds the identity token. Outside of phase `Reading`
    /// the call changes nothing.
    pub fn absorb(&mut self, text: &str) -> (action: ProbeAction)
        ensures
            final(self)@ == old(self)@.absorb(text@),
            action == final(self)@.pending(),
            final(self)@.wf(),
    {
        proof {
            use_type_invariant(&*self);
        }
        match self.cursor.phase {
            ProbePhase::Reading => {
                let index = self.cursor.index;
                let mut response = String::new();
                std::mem::swap(&mut response, &mut self.cursor.response);
                response.append(text);
                let phase = if contains_text(response.as_str(), identity_token()) {
                    ProbePhase::Found
                } else {
                    ProbePhase::Timing
                };
                self.cursor = Cursor { index, phase, response };
            },
            _ => {},
        }
        self.pending()
    }

    /// Takes the caller's report on the pending action and answers with the
    /// next action. Reports that do not answer the pending action are
    /// ignored; in a final phase every report is.
    ///
    /// Bytes that were read are turned into text permissively, so a reply
    /// never fails to decode; for a reply in plain ASCII the text is the
    /// reply itself.
    pub fn step(&mut self, event: ProbeEvent) -> (action: ProbeAction)
        ensures
            final(self)@ == old(self)@.step(event),
            action == final(self)@.pending(),
            final(self)@.wf(),
            is_ascii_bytes(payload(event)) ==> final(self)@ == old(self)@.step_with(
                event,
                ascii_text(payload(event)),
            ),
    {
        proof {
            use_type_invariant(&*self);
        }
        match self.cursor.phase {
            ProbePhase::Opening => match event {
                ProbeEvent::Opened => self.enter(ProbePhase::Sending),
                ProbeEvent::OpenFailed => self.advance(),
                _ => {},
            },
            ProbePhase::Sending => match event {
                ProbeEvent::Sent => self.enter(ProbePhase::Timing),
                ProbeEvent::SendFailed => self.advance(),
                _ => {},
            },
            ProbePhase::Timing => match event {
                ProbeEvent::Clock(elapsed_ms) => {
                    if elapsed_ms < PROBE_WINDOW_MS {
                        self.enter(ProbePhase::Reading)
                    } else {
                        self.advance()
                    }
                },
                _ => {},
            },
            ProbePhase::Reading => match event {
                ProbeEvent::Data(bytes) => {
                    if bytes.len() == 0 {
                        self.enter(ProbePhase::Timing)
                    } else {
                        let text = decode_lossy(bytes.as_slice());
                        return self.absorb(text.as_str());
                    }
                },
                ProbeEvent::ReadTimedOut => self.enter(ProbePhase::Timing),
                ProbeEvent::ReadFailed => self.advance(),
                _ => {},
            },
            _ => {},
        }
        self.pending()
    }
}

} // verus!
