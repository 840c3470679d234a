//! What holds of the streaming decoder on every stream: how it behaves under
//! noise, and that the way a stream is cut into reads does not matter.

use vstd::prelude::*;
use crate::decoder::{decoded, residue};
use crate::frame::{is_frame, sample_of, Sample, END_MARK, FRAME_LEN, START_A, START_B};

verus! {

/// The samples delivered when `reads` arrive one after the other at a decoder
/// that still holds `pending`.
pub open spec fn decoded_in_reads(pending: Seq<u8>, reads: Seq<Seq<u8>>) -> Seq<Sample>
    decreases reads.len(),
{
    if reads.len() == 0 {
        Seq::empty()
    } else {
        decoded(pending + reads.first()) + decoded_in_reads(
            residue(pending + reads.first()),
            reads.drop_first(),
        )
    }
}

/// The bytes a decoder holds back after `reads` have arrived one after the
/// other, having started with `pending`.
pub open spec fn pending_after_reads(pending: Seq<u8>, reads: Seq<Seq<u8>>) -> Seq<u8>
    decreases reads.len(),
{
    if reads.len() == 0 {
        pending
    } else {
        pending_after_reads(residue(pending + reads.first()), reads.drop_first())
    }
}

/// Whether the sixteen bytes of `stream` that start at offset `at` exist and
/// form a well-formed frame.
pub open spec fn frame_at(stream: Seq<u8>, at: int) -> bool {
    &&& 0 <= at
    &&& at + 16 <= stream.len()
    &&& is_frame(stream.subrange(at, at + 16))
}

/// Whether no sixteen-byte window that starts inside `gap` is a well-formed
/// frame, given that `rest` follows `gap` on the wire.
pub open spec fn gap_is_quiet(gap: Seq<u8>, rest: Seq<u8>) -> bool {
    forall|j: int| 0 <= j < gap.len() ==> !#[trigger] frame_at(gap + rest, j)
}

/// The stream `gaps[0] frames[0] gaps[1] frames[1] ... tail`.
pub open spec fn woven(gaps: Seq<Seq<u8>>, frames: Seq<Seq<u8>>, tail: Seq<u8>) -> Seq<u8>
    decreases frames.len(),
{
    if frames.len() == 0 {
        tail
    } else {
        gaps.first() + frames.first() + woven(gaps.drop_first(), frames.drop_first(), tail)
    }
}

/// Whether every gap of `woven(gaps, frames, tail)`, and the tail, is quiet
/// in front of what follows it.
pub open spec fn noise_is_quiet(gaps: Seq<Seq<u8>>, frames: Seq<Seq<u8>>, tail: Seq<u8>) -> bool
    decreases frames.len(),
{
    if frames.len() == 0 {
        gap_is_quiet(tail, Seq::empty())
    } else {
        &&& gap_is_quiet(
            gaps.first(),
            frames.first() + woven(gaps.drop_first(), frames.drop_first(), tail),
        )
        &&& noise_is_quiet(gaps.drop_first(), frames.drop_first(), tail)
    }
}

/// The last `min(len, 15)` bytes of `tail`: what a decoder keeps of trailing
/// noise.
pub open spec fn kept_of(tail: Seq<u8>) -> Seq<u8> {
    if tail.len() < FRAME_LEN {
        tail
    } else {
        tail.skip(tail.len() - 15)
    }
}

/// `offsets`, each moved up by `by`.
pub open spec fn shifted(offsets: Seq<int>, by: int) -> Seq<int> {
    Seq::new(offsets.len(), |k: int| offsets[k] + by)
}

/// The offsets in `stream` at which the windows start that are delivered as
/// samples, in order.
pub open spec fn frame_offsets(stream: Seq<u8>) -> Seq<int>
    decreases stream.len(),
{
    if stream.len() < FRAME_LEN {
        Seq::empty()
    } else if is_frame(stream.take(16)) {
        seq![0int] + shifted(frame_offsets(stream.skip(16)), 16)
    } else {
        shifted(frame_offsets(stream.skip(1)), 1)
    }
}

/// What is held back is a suffix of the stream: bytes leave at the head only
/// and keep their order.
pub proof fn law_residue_is_suffix(stream: Seq<u8>)
    ensures
        residue(stream).len() <= stream.len(),
        residue(stream) == stream.skip(stream.len() - residue(stream).len()),
    decreases stream.len(),
{
    if stream.len() >= FRAME_LEN {
        let step: int = if is_frame(stream.take(16)) { 16 } else { 1 };
        law_residue_is_suffix(stream.skip(step));
    }
}

/// A window with both start markers in front but a wrong last byte yields no
/// sample: exactly one byte is dropped and scanning goes on behind it.
pub proof fn law_wrong_end_marker_drops_one_byte(stream: Seq<u8>)
    requires
        stream.len() >= FRAME_LEN,
        stream[0] == START_A,
        stream[1] == START_B,
        stream[15] != END_MARK,
    ensures
        decoded(stream) == decoded(stream.skip(1)),
        residue(stream) == residue(stream.skip(1)),
{
}

/// Cutting a stream in two changes nothing: decoding `a` and then `b` gives
/// the samples, and leaves the bytes, that decoding `a + b` at once does.
pub proof fn law_split_in_two(a: Seq<u8>, b: Seq<u8>)
    ensures
        decoded(a + b) == decoded(a) + decoded(residue(a) + b),
        residue(a + b) == residue(residue(a) + b),
    decreases a.len(),
{
    if a.len() >= FRAME_LEN {
        if is_frame(a.take(16)) {
            law_split_in_two(a.skip(16), b);
            assert((a + b).skip(16) =~= a.skip(16) + b);
        } else {
            law_split_in_two(a.skip(1), b);
            assert((a + b).skip(1) =~= a.skip(1) + b);
        }
    }
}

/// Split-read independence: however a stream is cut into reads, the decoder
/// delivers the samples, and keeps the bytes, that it would for the whole
/// stream arriving in one read. `pending` is what the decoder held before the
/// first read, which is always less than a frame.
pub proof fn law_reads_do_not_matter(pending: Seq<u8>, reads: Seq<Seq<u8>>)
    requires
        pending.len() < FRAME_LEN,
    ensures
        decoded_in_reads(pending, reads) == decoded(pending + reads.flatten()),
        pending_after_reads(pending, reads) == residue(pending + reads.flatten()),
    decreases reads.len(),
{
    if reads.len() > 0 {
        let first = reads.first();
        let later = reads.drop_first();
        crate::decoder::lemma_residue_is_short(pending + first);
        law_reads_do_not_matter(residue(pending + first), later);
        law_split_in_two(pending + first, later.flatten());
        assert(pending + reads.flatten() =~= (pending + first) + later.flatten());
    }
}

/// Noise that holds no first start marker is quiet wherever it stands: no
/// window can begin in it.
pub proof fn law_noise_without_start_is_quiet(gap: Seq<u8>, rest: Seq<u8>)
    requires
        forall|j: int| 0 <= j < gap.len() ==> gap[j] != START_A,
    ensures
        gap_is_quiet(gap, rest),
{
}

/// A quiet gap in front of at least one frame's worth of bytes is skipped
/// whole, one byte at a time, and nothing is delivered for it.
pub proof fn law_quiet_gap_is_skipped(gap: Seq<u8>, rest: Seq<u8>)
    requires
        gap_is_quiet(gap, rest),
        rest.len() >= FRAME_LEN,
    ensures
        decoded(gap + rest) == decoded(rest),
        residue(gap + rest) == residue(rest),
    decreases gap.len(),
{
    let stream = gap + rest;
    if gap.len() > 0 {
        assert(!frame_at(stream, 0));
        let shorter = gap.skip(1);
        assert(stream.skip(1) =~= shorter + rest);
        assert forall|j: int| 0 <= j < shorter.len() implies !#[trigger] frame_at(
            shorter + rest,
            j,
        ) by {
            assert(!frame_at(stream, j + 1));
        }
        law_quiet_gap_is_skipped(shorter, rest);
    }
}

/// Quiet noise at the end of a stream delivers nothing; its last bytes, fewer
/// than a frame, are what the decoder keeps.
pub proof fn law_quiet_tail_is_dropped(tail: Seq<u8>)
    requires
        gap_is_quiet(tail, Seq::empty()),
    ensures
        decoded(tail) == Seq::<Sample>::empty(),
        residue(tail) == kept_of(tail),
    decreases tail.len(),
{
    if tail.len() >= FRAME_LEN {
        let nothing = Seq::<u8>::empty();
        assert(tail + nothing =~= tail);
        assert(!frame_at(tail, 0));
        let shorter = tail.skip(1);
        assert forall|j: int| 0 <= j < shorter.len() implies !#[trigger] frame_at(
            shorter + nothing,
            j,
        ) by {
            assert(!frame_at(tail, j + 1));
        }
        law_quiet_tail_is_dropped(shorter);
    }
}

/// Resynchronization: when well-formed frames are interleaved with noise in
/// which no sixteen-byte window that starts on a noise byte is itself
/// well-formed, the decoder delivers exactly the samples of those frames, in
/// stream order, whatever the noise holds and wherever it stands.
pub proof fn law_resynchronization(gaps: Seq<Seq<u8>>, frames: Seq<Seq<u8>>, tail: Seq<u8>)
    requires
        gaps.len() == frames.len(),
        forall|i: int| 0 <= i < frames.len() ==> is_frame(#[trigger] frames[i]),
        noise_is_quiet(gaps, frames, tail),
    ensures
        decoded(woven(gaps, frames, tail)) == frames.map_values(|f: Seq<u8>| sample_of(f)),
        residue(woven(gaps, frames, tail)) == kept_of(tail),
    decreases frames.len(),
{
    if frames.len() == 0 {
        law_quiet_tail_is_dropped(tail);
    } else {
        let gap = gaps.first();
        let frame = frames.first();
        let later = woven(gaps.drop_first(), frames.drop_first(), tail);
        let framed = frame + later;
        assert(woven(gaps, frames, tail) =~= gap + framed);
        law_quiet_gap_is_skipped(gap, framed);
        assert(framed.skip(16) =~= later);
        law_resynchronization(gaps.drop_first(), frames.drop_first(), tail);
    }
}

/// Every sample stands for a well-formed window of the stream: the `k`-th
/// one for the window at the `k`-th offset.
pub proof fn law_samples_sit_at_offsets(stream: Seq<u8>, k: int)
    requires
        0 <= k < frame_offsets(stream).len(),
    ensures
        decoded(stream).len() == frame_offsets(stream).len(),
        frame_at(stream, frame_offsets(stream)[k]),
        decoded(stream)[k] == sample_of(
            stream.subrange(frame_offsets(stream)[k], frame_offsets(stream)[k] + 16),
        ),
    decreases stream.len(),
{
    if stream.len() >= FRAME_LEN {
        if is_frame(stream.take(16)) {
            let rest = stream.skip(16);
            lemma_one_offset_per_sample(rest);
            if k > 0 {
                law_samples_sit_at_offsets(rest, k - 1);
            }
        } else {
            law_samples_sit_at_offsets(stream.skip(1), k);
        }
    }
}

/// There are as many samples as offsets.
pub proof fn lemma_one_offset_per_sample(stream: Seq<u8>)
    ensures
        decoded(stream).len() == frame_offsets(stream).len(),
    decreases stream.len(),
{
    if stream.len() >= FRAME_LEN {
        if is_frame(stream.take(16)) {
            lemma_one_offset_per_sample(stream.skip(16));
        } else {
            lemma_one_offset_per_sample(stream.skip(1));
        }
    }
}

/// Delivered windows follow one another in the stream without overlap, and
/// none reaches into the bytes that are held back.
pub proof fn law_frames_do_not_overlap(stream: Seq<u8>, k: int)
    requires
        0 <= k < frame_offsets(stream).len(),
    ensures
        0 <= frame_offsets(stream)[k],
        frame_offsets(stream)[k] + 16 <= stream.len() - residue(stream).len(),
        k + 1 < frame_offsets(stream).len() ==> frame_offsets(stream)[k] + 16 <= frame_offsets(
            stream,
        )[k + 1],
    decreases stream.len(),
{
    if stream.len() >= FRAME_LEN {
        if is_frame(stream.take(16)) {
            let rest = stream.skip(16);
            law_residue_is_suffix(rest);
            if k > 0 {
                law_frames_do_not_overlap(rest, k - 1);
            } else if 1 < frame_offsets(stream).len() {
                law_frames_do_not_overlap(rest, 0);
            }
        } else {
            law_frames_do_not_overlap(stream.skip(1), k);
        }
    }
}

/// No frame is missed: a well-formed window anywhere in the stream either is
/// delivered or begins inside a window that is. The result is the index of
/// that delivered window.
pub proof fn law_no_frame_is_missed(stream: Seq<u8>, at: int) -> (k: int)
    requires
        frame_at(stream, at),
    ensures
        0 <= k < frame_offsets(stream).len(),
        frame_offsets(stream)[k] <= at < frame_offsets(stream)[k] + 16,
    decreases stream.len(),
{
    if is_frame(stream.take(16)) {
        if at < 16 {
            0
        } else {
            law_no_frame_is_missed(stream.skip(16), at - 16) + 1
        }
    } else {
        law_no_frame_is_missed(stream.skip(1), at - 1)
    }
}

} // verus!
