//! The 16-byte telemetry frame and the sample it carries.
//!
//! | offset | size | meaning                                        |
//! |--------|------|------------------------------------------------|
//! | 0      | 1    | start marker A                                 |
//! | 1      | 1    | start marker B                                 |
//! | 2      | 1    | sequence counter                               |
//! | 3..=14 | 12   | six readings, two bytes each, high byte first  |
//! | 15     | 1    | end marker                                     |

use vstd::prelude::*;

verus! {

/// Length of one frame on the wire.
pub const FRAME_LEN: usize = 16;

/// First start marker, at offset 0.
pub const START_A: u8 = 0xC7;

/// Second start marker, at offset 1.
pub const START_B: u8 = 0x7C;

/// End marker, at offset 15.
pub const END_MARK: u8 = 0x01;

/// One decoded frame: the sequence counter and six signed readings.
#[derive(Clone, Copy, Debug, PartialEq, Eq)]
pub struct Sample {
    pub counter: u8,
    pub channels: [i16; 6],
}

impl Sample {
    /// The six readings as a list, in wire order: what is handed on to
    /// whoever consumes the samples.
    pub fn message(&self) -> (values: Vec<i16>)
        ensures
            values@ == self.channels@,
    {
        let mut values: Vec<i16> = Vec::new();
        let mut k: usize = 0;
        while k < 6
            invariant
                k <= 6,
                values@ == self.channels@.take(k as int),
            decreases 6 - k,
        {
            values.push(self.channels[k]);
            k = k + 1;
        }
        values
    }
}

/// The signed 16-bit number whose two's-complement bit pattern has `high` as
/// its upper and `low` as its lower byte.
pub open spec fn channel_value(high: u8, low: u8) -> int {
    if high < 128 {
        high * 256 + low
    } else {
        high * 256 + low - 65536
    }
}

/// `channel_value` as the machine integer it always fits in.
pub open spec fn reading(high: u8, low: u8) -> i16 {
    channel_value(high, low) as i16
}

/// Whether `window` is exactly one well-formed frame: sixteen bytes, both
/// start markers in front and the end marker last.
pub open spec fn is_frame(window: Seq<u8>) -> bool {
    &&& window.len() == FRAME_LEN
    &&& window[0] == START_A
    &&& window[1] == START_B
    &&& window[15] == END_MARK
}

/// The six readings carried by `window`, in wire order.
pub open spec fn channels_of(window: Seq<u8>) -> Seq<i16> {
    Seq::new(6, |k: int| reading(window[3 + 2 * k], window[4 + 2 * k]))
}

/// The sample carried by a frame. Meaningful for windows of at least fifteen
/// bytes; the markers are not looked at.
pub open spec fn sample_of(window: Seq<u8>) -> Sample {
    Sample {
        counter: window[2],
        channels: [
            reading(window[3], window[4]),
            reading(window[5], window[6]),
            reading(window[7], window[8]),
            reading(window[9], window[10]),
            reading(window[11], window[12]),
            reading(window[13], window[14]),
        ],
    }
}

/// Combines two consecutive wire bytes, most significant first, into a reading.
pub fn combine(high: u8, low: u8) -> (value: i16)
    ensures
        value == channel_value(high, low),
        value == reading(high, low),
{
    let h: i16 = high as i16;
    let l: i16 = low as i16;
    let v: i16 = (h << 8) | l;
    assert(v == channel_value(high, low)) by (bit_vector)
        requires
            h == high as i16,
            l == low as i16,
            v == (h << 8) | l,
    ;
    v
}

/// Decodes one sixteen-byte window. A sample comes back exactly when the
/// window is a well-formed frame; its payload is never inspected beyond the
/// framing bytes.
pub fn decode_frame(window: &[u8]) -> (decoded: Option<Sample>)
    ensures
        decoded == if is_frame(window@) {
            Some(sample_of(window@))
        } else {
            None
        },
        decoded matches Some(s) ==> s.channels@ == channels_of(window@),
{
    if window.len() != FRAME_LEN {
        return None;
    }
    if window[0] != START_A || window[1] != START_B || window[15] != END_MARK {
        return None;
    }
    let channels: [i16; 6] = [
        combine(window[3], window[4]),
        combine(window[5], window[6]),
        combine(window[7], window[8]),
        combine(window[9], window[10]),
        combine(window[11], window[12]),
        combine(window[13], window[14]),
    ];
    let sample = Sample { counter: window[2], channels };
    Some(sample)
}

} // verus!
