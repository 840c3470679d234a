//! Text handling for identification replies: permissive decoding of raw
//! bytes and substring search. Both lean on the standard library; what is
//! taken on trust about it is written on the two private functions below.

use vstd::prelude::*;

verus! {

/// The text that permissive UTF-8 decoding makes of `bytes`: well-formed
/// sequences decode to their characters, anything else is replaced rather
/// than rejected.
pub uninterp spec fn lossy_text(bytes: Seq<u8>) -> Seq<char>;

/// Whether every byte is a 7-bit ASCII code.
pub open spec fn is_ascii_bytes(bytes: Seq<u8>) -> bool {
    forall|i: int| 0 <= i < bytes.len() ==> #[trigger] bytes[i] < 128
}

/// The characters whose ASCII codes are `bytes`.
pub open spec fn ascii_text(bytes: Seq<u8>) -> Seq<char> {
    Seq::new(bytes.len(), |i: int| bytes[i] as char)
}

/// Whether `needle` stands in `hay` at offset `at`.
pub open spec fn occurs_at(needle: Seq<char>, hay: Seq<char>, at: int) -> bool {
    &&& 0 <= at
    &&& at + needle.len() <= hay.len()
    &&& hay.subrange(at, at + needle.len()) == needle
}

/// Whether `needle` stands somewhere in `hay` as a contiguous run.
pub open spec fn occurs_in(needle: Seq<char>, hay: Seq<char>) -> bool {
    exists|at: int| #[trigger] occurs_at(needle, hay, at)
}

/// Calls `String::from_utf8_lossy` and owns the result.
///
/// Trusted: the text depends on the bytes alone, and bytes that are all
/// 7-bit ASCII come back as the characters with those codes. Nothing is
/// claimed about what other input turns into.
#[verifier::external_body]
pub(crate) fn decode_lossy(bytes: &[u8]) -> (text: String)
    ensures
        text@ == lossy_text(bytes@),
        is_ascii_bytes(bytes@) ==> text@ == ascii_text(bytes@),
{
    String::from_utf8_lossy(bytes).into_owned()
}

/// Calls `str::contains` with a string pattern.
///
/// Trusted: the answer is `true` exactly when the pattern's characters stand
/// somewhere in `hay` as a contiguous run.
#[verifier::external_body]
pub(crate) fn contains_text(hay: &str, needle: &str) -> (found: bool)
    ensures
        found == occurs_in(needle@, hay@),
{
    hay.contains(needle)
}

} // verus!
