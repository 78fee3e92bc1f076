//! Text that arrives as a run of bytes closed by a zero byte.

use vstd::prelude::*;
use vstd::slice::slice_subrange;
use vstd::string::StringSliceAdditionalSpecFns;
use vstd::utf8::valid_utf8;

verus! {

/// How many bytes of a byte string belong to its text: those before the
/// first zero byte, or all of them where no byte is zero.
pub open spec fn text_len(bytes: Seq<u8>) -> nat
    decreases bytes.len(),
{
    if bytes.len() == 0 || bytes[0] == 0 {
        0
    } else {
        1 + text_len(bytes.drop_first())
    }
}

/// The text of a byte string, without its terminator.
pub open spec fn text_of(bytes: Seq<u8>) -> Seq<u8> {
    bytes.take(text_len(bytes) as int)
}

/// A position is the end of the text exactly if no byte before it is zero
/// and the string ends there or holds a zero byte there.
pub proof fn lemma_text_len(bytes: Seq<u8>, end: int)
    requires
        0 <= end <= bytes.len(),
        forall|i: int| 0 <= i < end ==> bytes[i] != 0,
        end < bytes.len() ==> bytes[end] == 0,
    ensures
        text_len(bytes) == end,
    decreases end,
{
    if end > 0 {
        lemma_text_len(bytes.drop_first(), end - 1);
    }
}

/// The text of `bytes`, borrowed from it.
pub fn terminated_text<'a>(bytes: &'a [u8]) -> (text: &'a [u8])
    ensures
        text@ == text_of(bytes@),
{
    let mut end: usize = 0;
    while end < bytes.len() && bytes[end] != 0
        invariant
            end <= bytes.len(),
            forall|i: int| 0 <= i < end ==> bytes@[i] != 0,
        decreases bytes.len() - end,
    {
        end = end + 1;
    }
    proof {
        lemma_text_len(bytes@, end as int);
    }
    slice_subrange(bytes, 0, end)
}

/// `core::str::from_utf8`, with its error dropped. The standard library
/// documents that the conversion succeeds exactly on well-formed UTF-8 and
/// that the string it returns is the given bytes, unchanged.
#[verifier::external_body]
pub(crate) fn decode_utf8_text<'a>(bytes: &'a [u8]) -> (text: Option<&'a str>)
    ensures
        text is Some <==> valid_utf8(bytes@),
        text matches Some(s) ==> s.spec_bytes() == bytes@,
{
    core::str::from_utf8(bytes).ok()
}

} // verus!
