//! The two-call pattern for variable-length outputs, written once: probe
//! for the size with an empty buffer, then fetch into a buffer of that size.
//! Nothing is cached; every fetch probes again.
use vstd::prelude::*;
use vstd::utf8::{decode_utf8, valid_utf8};
use crate::error::{Error, Status};
use crate::runtime::Api;
use crate::runtime::blobs::Blob;

verus! {

/// What a byte sequence decodes to as UTF-8: its characters, or `None`
/// where the bytes are not valid UTF-8.
pub open spec fn utf8_decoded(b: Seq<u8>) -> Option<Seq<char>> {
    if valid_utf8(b) {
        Some(decode_utf8(b))
    } else {
        None
    }
}

/// Whether every byte is below 128.
pub open spec fn is_ascii(b: Seq<u8>) -> bool {
    forall|i: int| 0 <= i < b.len() ==> b[i] < 128
}

/// The characters of ASCII bytes, one for each byte.
pub open spec fn ascii_chars(b: Seq<u8>) -> Seq<char> {
    b.map_values(|x: u8| x as char)
}

/// The characters of an optional string.
pub open spec fn text_view(r: Option<String>) -> Option<Seq<char>> {
    match r {
        Some(s) => Some(s@),
        None => None,
    }
}

/// Relies on `String::from_utf8`: it succeeds exactly on valid UTF-8, and
/// then holds the characters the bytes encode.
#[verifier::external_body]
fn text_from_utf8(bytes: Vec<u8>) -> (r: Option<String>)
    ensures
        text_view(r) == utf8_decoded(bytes@),
{
    String::from_utf8(bytes).ok()
}

/// ASCII bytes are valid UTF-8 and decode to one character per byte.
pub proof fn lemma_ascii_decodes(b: Seq<u8>)
    requires
        is_ascii(b),
    ensures
        utf8_decoded(b) == Some(ascii_chars(b)),
    decreases b.len(),
{
    if b.len() > 0 {
        let x = b[0];
        assert(x & 0x7F == x) by (bit_vector)
            requires x < 128u8;
        let rest = b.subrange(1, b.len() as int);
        assert(is_ascii(rest));
        lemma_ascii_decodes(rest);
        assert(ascii_chars(b) =~= seq![x as char] + ascii_chars(rest));
    } else {
        assert(ascii_chars(b) =~= Seq::<char>::empty());
    }
}

/// The text of a runtime string: its bytes without the terminating zero.
pub open spec fn text_bytes(c: Seq<u8>) -> Seq<u8> {
    if c.len() > 0 && c.last() == 0 {
        c.drop_last()
    } else {
        c
    }
}

/// What fetching an output with this content yields: its bytes;
/// `SizeProbeFailed` where the probe fails (no content) or reports no bytes.
pub open spec fn fetched_from(content: Option<Seq<u8>>) -> Result<Seq<u8>, Error> {
    match content {
        Some(c) => if c.len() > 0 {
            Ok(c)
        } else {
            Err(Error::SizeProbeFailed)
        },
        None => Err(Error::SizeProbeFailed),
    }
}

/// What fetching output `b` yields.
pub open spec fn fetched(api: &Api, b: Blob) -> Result<Seq<u8>, Error> {
    fetched_from(api.blob_content(b))
}

/// What fetching an output with this content as text yields: its
/// characters, without the terminating zero.
pub open spec fn fetched_text_from(content: Option<Seq<u8>>) -> Result<Seq<char>, Error> {
    match fetched_from(content) {
        Ok(c) => match utf8_decoded(text_bytes(c)) {
            Some(t) => Ok(t),
            None => Err(Error::InvalidUtf8),
        },
        Err(e) => Err(e),
    }
}

/// What fetching output `b` as text yields.
pub open spec fn fetched_text(api: &Api, b: Blob) -> Result<Seq<char>, Error> {
    fetched_text_from(api.blob_content(b))
}

/// The bytes of a fetch result.
pub open spec fn bytes_view(r: Result<Vec<u8>, Error>) -> Result<Seq<u8>, Error> {
    match r {
        Ok(v) => Ok(v@),
        Err(e) => Err(e),
    }
}

/// The characters of a text fetch result.
pub open spec fn chars_view(r: Result<String, Error>) -> Result<Seq<char>, Error> {
    match r {
        Ok(s) => Ok(s@),
        Err(e) => Err(e),
    }
}

/// Fetches variable-length output `b` as bytes.
pub fn fetch_bytes(api: &Api, b: &Blob) -> (r: Result<Vec<u8>, Error>)
    requires
        api.wf(),
    ensures
        bytes_view(r) == fetched(api, *b),
{
    let probe = api.read_blob(b, 0);
    if probe.size == 0 || (probe.status != Status::BufferTooSmall && probe.status != Status::Succeeded) {
        return Err(Error::SizeProbeFailed);
    }
    let fill = api.read_blob(b, probe.size);
    if fill.status != Status::Succeeded {
        return Err(Error::from_status(fill.status));
    }
    Ok(fill.data)
}

/// Fetches variable-length output `b` as text, without its terminating
/// zero.
pub fn fetch_text(api: &Api, b: &Blob) -> (r: Result<String, Error>)
    requires
        api.wf(),
    ensures
        chars_view(r) == fetched_text(api, *b),
        fetched(api, *b) matches Ok(c) ==> (is_ascii(text_bytes(c)) ==> chars_view(r) == Ok::<Seq<char>, Error>(ascii_chars(text_bytes(c)))),
{
    let mut bytes = match fetch_bytes(api, b) {
        Ok(v) => v,
        Err(e) => return Err(e),
    };
    let n = bytes.len();
    if n > 0 && bytes[n - 1] == 0 {
        bytes.pop();
    }
    proof {
        if n > 0 && bytes@.len() < n {
            assert(bytes@ =~= text_bytes(fetched(api, *b)->Ok_0));
        }
    }
    proof {
        let c = fetched(api, *b)->Ok_0;
        if fetched(api, *b) is Ok && is_ascii(text_bytes(c)) {
            lemma_ascii_decodes(text_bytes(c));
        }
    }
    match text_from_utf8(bytes) {
        Some(s) => Ok(s),
        None => Err(Error::InvalidUtf8),
    }
}

} // verus!
