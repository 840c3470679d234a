//! Streaming decoder: cuts an unaligned byte stream into frames.
//!
//! A frame is only ever recognised at the head of the unconsumed bytes. When
//! the head is not a well-formed frame exactly one byte is dropped and the
//! new head is examined; bytes are never reordered or looked at out of turn.

use vstd::prelude::*;
use crate::frame::{decode_frame, is_frame, sample_of, Sample, FRAME_LEN};

verus! {

/// The samples obtained from `stream`, in stream order. As long as sixteen
/// bytes are left, either the first sixteen are a well-formed frame, which
/// gives a sample and is consumed whole, or the first byte alone is dropped.
pub open spec fn decoded(stream: Seq<u8>) -> Seq<Sample>
    decreases stream.len(),
{
    if stream.len() < FRAME_LEN {
        Seq::empty()
    } else if is_frame(stream.take(16)) {
        seq![sample_of(stream.take(16))] + decoded(stream.skip(16))
    } else {
        decoded(stream.skip(1))
    }
}

/// The bytes of `stream` that are still unconsumed once no full window is
/// left: always a suffix of `stream`, shorter than one frame.
pub open spec fn residue(stream: Seq<u8>) -> Seq<u8>
    decreases stream.len(),
{
    if stream.len() < FRAME_LEN {
        stream
    } else if is_frame(stream.take(16)) {
        residue(stream.skip(16))
    } else {
        residue(stream.skip(1))
    }
}

/// Accumulates raw bytes across reads and hands out every complete frame.
pub struct FrameDecoder {
    buffer: Vec<u8>,
}

impl FrameDecoder {
    #[verifier::type_invariant]
    spec fn inv(&self) -> bool {
        self.buffer@.len() < FRAME_LEN
    }

    /// The bytes received so far that belong to no emitted or rejected window.
    pub closed spec fn pending(&self) -> Seq<u8> {
        self.buffer@
    }

    /// A decoder that has seen no bytes.
    pub fn new() -> (decoder: FrameDecoder)
        ensures
            decoder.pending() == Seq::<u8>::empty(),
    {
        FrameDecoder { buffer: Vec::new() }
    }

    /// Number of bytes held back for the next read; always less than a frame.
    pub fn pending_len(&self) -> (n: usize)
        ensures
            n == self.pending().len(),
            n < FRAME_LEN,
    {
        proof {
            use_type_invariant(self);
        }
        self.buffer.len()
    }

    /// The bytes held back for the next read, oldest first.
    pub fn pending_bytes(&self) -> (bytes: &[u8])
        ensures
            bytes@ == self.pending(),
    {
        self.buffer.as_slice()
    }

    /// Appends one read's worth of bytes and returns the samples of all frames
    /// that are now complete, oldest first. What is left over waits for the
    /// next call.
    pub fn feed(&mut self, bytes: &[u8]) -> (samples: Vec<Sample>)
        ensures
            samples@ == decoded(old(self).pending() + bytes@),
            final(self).pending() == residue(old(self).pending() + bytes@),
            final(self).pending().len() < FRAME_LEN,
    {
        let mut work: Vec<u8> = Vec::new();
        std::mem::swap(&mut work, &mut self.buffer);
        work.extend_from_slice(bytes);
        let ghost stream = work@;
        assert(stream =~= old(self).pending() + bytes@);
        let mut samples: Vec<Sample> = Vec::new();
        let mut pos: usize = 0;
        assert(stream.skip(0) =~= stream);
        while work.len() - pos >= FRAME_LEN
            invariant
                pos <= work.len(),
                work@ == stream,
                decoded(stream) == samples@ + decoded(stream.skip(pos as int)),
                residue(stream) == residue(stream.skip(pos as int)),
            decreases work.len() - pos,
        {
            let ghost rest = stream.skip(pos as int);
            match decode_frame(&work[pos..pos + FRAME_LEN]) {
                Some(sample) => {
                    assert(rest.skip(16) =~= stream.skip(pos + 16));
                    samples.push(sample);
                    pos = pos + FRAME_LEN;
                },
                None => {
                    assert(rest.skip(1) =~= stream.skip(pos + 1));
                    pos = pos + 1;
                },
            }
        }
        let tail = work.split_off(pos);
        self.buffer = tail;
        samples
    }
}

/// What is held back is always shorter than one frame.
pub proof fn lemma_residue_is_short(stream: Seq<u8>)
    ensures
        residue(stream).len() < FRAME_LEN,
    decreases stream.len(),
{
    if stream.len() >= FRAME_LEN {
        if is_frame(stream.take(16)) {
            lemma_residue_is_short(stream.skip(16));
        } else {
            lemma_residue_is_short(stream.skip(1));
        }
    }
}

} // verus!
