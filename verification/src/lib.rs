//! Device discovery and telemetry framing for a serial-attached sensor board.
//!
//! The crate holds the protocol rules only: which endpoint is selected during
//! discovery, and how a raw byte stream is cut into frames and samples. The
//! caller performs every read, write and delay and reports what happened.
//!
//! * [`prober`] picks the endpoint that hosts the device; [`discovery`] states
//!   what holds of every discovery run.
//! * [`session`] drives one streaming connection; [`streaming`] states what
//!   holds of every session.
//! * [`decoder`] cuts the byte stream into frames; [`resync`] states how it
//!   copes with noise and with reads of any size.
//! * [`frame`], [`link`] and [`text`] hold the wire format, the link
//!   parameters and the handling of reply text.

pub mod decoder;
pub mod discovery;
pub mod frame;
pub mod link;
pub mod prober;
pub mod resync;
pub mod session;
pub mod streaming;
pub mod text;
