//! Fixed parameters of the serial link and the two commands sent over it.

use vstd::prelude::*;

verus! {

/// Line speed of every connection, in bits per second.
pub const BAUD_RATE: u32 = 115_200;

/// Longest time one read may block while an endpoint is probed.
pub const PROBE_READ_TIMEOUT_MS: u64 = 1_000;

/// Time an endpoint is given to identify itself, counted from the moment the
/// request has been sent.
pub const PROBE_WINDOW_MS: u64 = 2_000;

/// Longest time one read may block while samples are streamed.
pub const STREAM_READ_TIMEOUT_MS: u64 = 3_000;

/// Pause between the start command and the first streaming read.
pub const SETTLE_MS: u64 = 4;

/// Largest number of bytes asked for in one read.
pub const READ_CHUNK: usize = 1024;

/// The identification request on the wire: `WHORU` and a line feed.
pub open spec fn identify_request_bytes() -> Seq<u8> {
    seq![0x57u8, 0x48u8, 0x4Fu8, 0x52u8, 0x55u8, 0x0Au8]
}

/// The start command on the wire: `START`, carriage return, line feed.
pub open spec fn start_command_bytes() -> Seq<u8> {
    seq![0x53u8, 0x54u8, 0x41u8, 0x52u8, 0x54u8, 0x0Du8, 0x0Au8]
}

/// The token by which the device is recognised in a reply: `UNO-R4`.
pub open spec fn identity_marker() -> Seq<char> {
    seq!['U', 'N', 'O', '-', 'R', '4']
}

/// The bytes to send to an endpoint to make the device name itself.
pub fn identify_request() -> (request: Vec<u8>)
    ensures
        request@ == identify_request_bytes(),
{
    let request: Vec<u8> = vec![0x57u8, 0x48u8, 0x4Fu8, 0x52u8, 0x55u8, 0x0Au8];
    request
}

/// The bytes to send once after opening to make the device stream frames.
pub fn start_command() -> (command: Vec<u8>)
    ensures
        command@ == start_command_bytes(),
{
    let command: Vec<u8> = vec![0x53u8, 0x54u8, 0x41u8, 0x52u8, 0x54u8, 0x0Du8, 0x0Au8];
    command
}

/// The identity token as text.
pub fn identity_token() -> (token: &'static str)
    ensures
        token@ == identity_marker(),
{
    proof {
        reveal_strlit("UNO-R4");
    }
    let token: &'static str = "UNO-R4";
    token
}

} // verus!
