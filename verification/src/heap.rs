//! The heaps: byte regions that table columns point into. The string heap
//! holds zero-terminated UTF-8 runs, the blob heap length-prefixed byte runs.

use crate::bytes::{compressed, read_compressed};
use crate::error::{invalid_data, Error};
use vstd::prelude::*;
use vstd::slice::slice_subrange;
use vstd::string::StringSliceAdditionalSpecFns;
use vstd::utf8::{decode_utf8, encode_utf8_decode_utf8, encode_utf8_valid_utf8, valid_utf8};

verus! {

/// `end` is the position of the first zero byte at or after `from`.
pub open spec fn is_run_end(heap: Seq<u8>, from: int, end: int) -> bool {
    &&& 0 <= from <= end < heap.len()
    &&& heap[end] == 0
    &&& forall|j: int| from <= j < end ==> heap[j] != 0
}

/// The bytes from `from` up to the next zero byte, or `None` where the heap
/// ends before one is found.
pub open spec fn run_at(heap: Seq<u8>, from: int) -> Option<Seq<u8>> {
    if exists|end: int| is_run_end(heap, from, end) {
        Some(heap.subrange(from, choose|end: int| is_run_end(heap, from, end)))
    } else {
        None
    }
}

/// The string stored at `from`: the run there, decoded, or `None` where
/// there is no run or it is not UTF-8.
pub open spec fn string_at(heap: Seq<u8>, from: int) -> Option<Seq<char>> {
    match run_at(heap, from) {
        Some(run) => if valid_utf8(run) {
            Some(decode_utf8(run))
        } else {
            None
        },
        None => None,
    }
}

/// The blob stored at `from`: a compressed length and that many bytes, or
/// `None` where either runs past the end of the heap.
pub open spec fn blob_at(heap: Seq<u8>, from: int) -> Option<Seq<u8>> {
    match compressed(heap, from) {
        Some((len, width)) => if from + width + len <= heap.len() {
            Some(heap.subrange(from + width, from + width + len))
        } else {
            None
        },
        None => None,
    }
}

/// A run has one end only.
pub proof fn lemma_run_end_unique(heap: Seq<u8>, from: int, a: int, b: int)
    requires
        is_run_end(heap, from, a),
        is_run_end(heap, from, b),
    ensures
        a == b,
{
    if a < b {
        assert(heap[a] != 0);
    } else if b < a {
        assert(heap[b] != 0);
    }
}

/// A run that was found at `from` ending at `end` is the run at `from`.
pub proof fn lemma_run_found(heap: Seq<u8>, from: int, end: int)
    requires
        is_run_end(heap, from, end),
    ensures
        run_at(heap, from) == Some(heap.subrange(from, end)),
{
    let chosen = choose|e: int| is_run_end(heap, from, e);
    lemma_run_end_unique(heap, from, end, chosen);
}

/// Where a string is stored, the run that holds it is its UTF-8 encoding,
/// and the other way round.
pub proof fn lemma_string_at_bytes(heap: Seq<u8>, from: int, text: Seq<char>)
    ensures
        string_at(heap, from) == Some(text) <==> run_at(heap, from) == Some(
            vstd::utf8::encode_utf8(text),
        ),
{
    encode_utf8_decode_utf8(text);
    encode_utf8_valid_utf8(text);
    if let Some(run) = run_at(heap, from) {
        if valid_utf8(run) {
            vstd::utf8::decode_utf8_encode_utf8(run);
        }
    }
}

/// `core::str::from_utf8`: the string that `bytes` encode; it is there
/// exactly when the bytes are well-formed UTF-8, and its encoding is
/// `bytes` again.
#[verifier::external_body]
fn utf8<'a>(bytes: &'a [u8]) -> (r: Option<&'a str>)
    ensures
        r is Some <==> valid_utf8(bytes@),
        r matches Some(text) ==> text.spec_bytes() == bytes@,
{
    match core::str::from_utf8(bytes) {
        Ok(text) => Some(text),
        Err(_) => None,
    }
}

/// Decodes `bytes` as UTF-8.
pub fn decode<'a>(bytes: &'a [u8]) -> (r: Option<&'a str>)
    ensures
        r is Some <==> valid_utf8(bytes@),
        r matches Some(text) ==> text@ == decode_utf8(bytes@),
{
    let r = utf8(bytes);
    proof {
        if let Some(text) = r {
            encode_utf8_decode_utf8(text@);
        }
    }
    r
}

/// Whether two byte runs hold the same bytes.
pub fn same_bytes(a: &[u8], b: &[u8]) -> (r: bool)
    ensures
        r == (a@ == b@),
{
    if a.len() != b.len() {
        return false;
    }
    let mut i: usize = 0;
    while i < a.len()
        invariant
            i <= a.len(),
            a.len() == b.len(),
            forall|j: int| 0 <= j < i ==> a@[j] == b@[j],
        decreases a.len() - i,
    {
        if a[i] != b[i] {
            return false;
        }
        i = i + 1;
    }
    assert(a@ =~= b@);
    true
}

/// Whether two strings hold the same text.
pub fn same_text(a: &str, b: &str) -> (r: bool)
    ensures
        r == (a@ == b@),
{
    proof {
        encode_utf8_decode_utf8(a@);
        encode_utf8_decode_utf8(b@);
    }
    same_bytes(a.as_bytes(), b.as_bytes())
}

/// The run of bytes at `from`, without its terminator.
pub fn run<'a>(heap: &'a [u8], from: usize) -> (r: Option<&'a [u8]>)
    ensures
        match r {
            Some(found) => run_at(heap@, from as int) == Some(found@),
            None => run_at(heap@, from as int) is None,
        },
{
    let mut end: usize = from;
    while end < heap.len()
        invariant
            from <= end,
            forall|j: int| from <= j < end ==> heap@[j] != 0,
        decreases heap.len() - end,
    {
        if heap[end] == 0 {
            proof {
                lemma_run_found(heap@, from as int, end as int);
            }
            return Some(slice_subrange(heap, from, end));
        }
        end = end + 1;
    }
    proof {
        if exists|e: int| is_run_end(heap@, from as int, e) {
            let e = choose|e: int| is_run_end(heap@, from as int, e);
            assert(heap@[e] == 0);
        }
    }
    None
}

/// The string stored at `offset` of the string heap. Fails where the heap
/// ends before a terminator, or the bytes are not UTF-8.
pub fn string<'a>(heap: &'a [u8], offset: usize) -> (r: Result<&'a str, Error>)
    ensures
        match r {
            Ok(text) => string_at(heap@, offset as int) == Some(text@),
            Err(e) => string_at(heap@, offset as int) is None && e is InvalidData,
        },
{
    match run(heap, offset) {
        Some(found) => match decode(found) {
            Some(text) => Ok(text),
            None => Err(invalid_data("string is not UTF-8")),
        },
        None => Err(invalid_data("string without terminator")),
    }
}

/// The blob stored at `offset` of the blob heap. Fails where the length
/// prefix is malformed or the blob runs past the end of the heap.
pub fn blob<'a>(heap: &'a [u8], offset: usize) -> (r: Result<&'a [u8], Error>)
    ensures
        match r {
            Ok(found) => blob_at(heap@, offset as int) == Some(found@),
            Err(e) => blob_at(heap@, offset as int) is None && e is InvalidData,
        },
{
    let total: usize = heap.len();
    match read_compressed(heap, offset) {
        Some((len, width)) => {
            let start: usize = offset + width;
            if len as usize > total - start {
                Err(invalid_data("blob runs past the end of its heap"))
            } else {
                Ok(slice_subrange(heap, start, start + len as usize))
            }
        },
        None => Err(invalid_data("blob length is malformed")),
    }
}

} // verus!
