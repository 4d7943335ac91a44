//! The string shape of the variable-length retrieval protocol.
//!
//! A device-identifier query fills a fixed-capacity byte buffer and reports a
//! length, but does not promise a terminator within that length. The logic
//! here recovers the text exactly as a C-string reader would: the decoded
//! bytes are the reported prefix up to, and not including, the first zero
//! byte, or the whole reported prefix when it holds no zero byte (a
//! terminator is then synthesized after it).

use vstd::prelude::*;

use vstd::utf8::decode_utf8;
use vstd::utf8::valid_utf8;

verus! {

/// Index of the first zero byte, or the length when there is none.
pub open spec fn nul_scan(bytes: Seq<u8>) -> int
    decreases bytes.len(),
{
    if bytes.len() == 0 {
        0
    } else if bytes[0] == 0 {
        0
    } else {
        1 + nul_scan(bytes.drop_first())
    }
}

/// The bytes a C-string reader decodes from a reported buffer: everything
/// before the first zero byte, or all of it when no byte is zero.
pub open spec fn uuid_prefix(bytes: Seq<u8>) -> Seq<u8> {
    bytes.take(nul_scan(bytes))
}

/// Any index with no zero byte before it, and a zero byte (or the end) at it,
/// is the first-zero index.
pub proof fn lemma_nul_scan_at(bytes: Seq<u8>, i: int)
    requires
        0 <= i <= bytes.len(),
        forall|j: int| 0 <= j < i ==> bytes[j] != 0,
        i == bytes.len() || bytes[i] == 0,
    ensures
        nul_scan(bytes) == i,
    decreases bytes.len(),
{
    if bytes.len() == 0 {
    } else if bytes[0] == 0 {
        assert(i == 0);
    } else {
        assert(i >= 1);
        let rest = bytes.drop_first();
        assert forall|j: int| 0 <= j < i - 1 implies rest[j] != 0 by {
            assert(bytes[j + 1] != 0);
        }
        lemma_nul_scan_at(rest, i - 1);
    }
}

/// Law: when the reported bytes are already terminated at their end and hold
/// no earlier zero byte, the decoded bytes are exactly those before the
/// terminator; when no byte of the report is zero, a terminator is
/// synthesized and the decoded bytes are exactly the whole report.
pub proof fn lemma_uuid_prefix_cases(bytes: Seq<u8>)
    ensures
        bytes.len() > 0 && bytes[bytes.len() - 1] == 0 && (forall|j: int|
            0 <= j < bytes.len() - 1 ==> bytes[j] != 0) ==> uuid_prefix(bytes) == bytes.take(
            bytes.len() - 1,
        ),
        (forall|j: int| 0 <= j < bytes.len() ==> bytes[j] != 0) ==> uuid_prefix(bytes) == bytes,
{
    if bytes.len() > 0 && bytes[bytes.len() - 1] == 0 && (forall|j: int|
        0 <= j < bytes.len() - 1 ==> bytes[j] != 0) {
        lemma_nul_scan_at(bytes, bytes.len() - 1);
    }
    if forall|j: int| 0 <= j < bytes.len() ==> bytes[j] != 0 {
        lemma_nul_scan_at(bytes, bytes.len() as int);
        assert(uuid_prefix(bytes) =~= bytes);
    }
}

/// Copy the decoded prefix out of a reported buffer: the first `len` bytes of
/// `buf`, cut at the first zero byte.
pub fn prefix_before_nul(buf: &Vec<u8>, len: usize) -> (r: Vec<u8>)
    requires
        len <= buf@.len(),
    ensures
        r@ == uuid_prefix(buf@.take(len as int)),
{
    let ghost reported = buf@.take(len as int);
    let mut cut: usize = 0;
    while cut < len && buf[cut] != 0
        invariant
            0 <= cut <= len <= buf@.len(),
            reported == buf@.take(len as int),
            forall|j: int| 0 <= j < cut ==> reported[j] != 0,
        decreases len - cut,
    {
        proof {
            assert(reported[cut as int] == buf@[cut as int]);
        }
        cut = cut + 1;
    }
    proof {
        lemma_nul_scan_at(reported, cut as int);
    }
    let mut out: Vec<u8> = Vec::new();
    let mut i: usize = 0;
    while i < cut
        invariant
            0 <= i <= cut <= len <= buf@.len(),
            out@.len() == i as nat,
            forall|j: int| 0 <= j < i ==> out@[j] == buf@[j],
        decreases cut - i,
    {
        out.push(buf[i]);
        i = i + 1;
    }
    proof {
        assert(out@ =~= reported.take(cut as int));
    }
    out
}

/// Relies on `String::from_utf8`: it succeeds exactly on bytes that are valid
/// UTF-8, and the returned text is their decoding.
#[verifier::external_body]
pub fn utf8_to_string(bytes: Vec<u8>) -> (r: Option<String>)
    ensures
        r is Some <==> valid_utf8(bytes@),
        r matches Some(s) ==> s@ == decode_utf8(bytes@),
{
    match String::from_utf8(bytes) {
        Ok(s) => Some(s),
        Err(_) => None,
    }
}

} // verus!
