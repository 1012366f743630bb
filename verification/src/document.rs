//! From the stored bytes of a document to its text.
//!
//! A document is stored either as plain UTF-8 or as a gzip stream of UTF-8.
//! Which of the two is told from its first three bytes alone.

use std::io::Read;
use flate2::read::GzDecoder;
use vstd::prelude::*;
use vstd::slice::slice_to_vec;
use vstd::utf8::{decode_utf8, decode_utf8_encode_utf8, encode_utf8, valid_utf8};
use crate::error::DumpError;

verus! {

/// Whether `data` starts with the three bytes `1F 8B 08`: the gzip magic
/// number, followed by the method "deflate".
pub open spec fn has_gzip_magic(data: Seq<u8>) -> bool {
    data.len() >= 3 && data[0] == 0x1f && data[1] == 0x8b && data[2] == 0x08
}

/// Whether `data` starts like a gzip stream. Only the first three bytes are
/// looked at; the rest of the header and the checksum are not.
pub fn looks_like_gzip(data: &[u8]) -> (gzip: bool)
    ensures
        gzip == has_gzip_magic(data@),
{
    data.len() >= 3 && data[0] == 0x1f && data[1] == 0x8b && data[2] == 0x08
}

/// What inflating the gzip stream `data` to its end gives: the payload, or
/// `None` where the stream is damaged or cut short.
pub uninterp spec fn gzip_payload(data: Seq<u8>) -> Option<Seq<u8>>;

/// Reads a `flate2::read::GzDecoder` over `data` to its end. The bytes read
/// are, by definition, `gzip_payload(data)`; a read that fails gives `None`.
#[verifier::external_body]
fn inflate(data: &[u8]) -> (payload: Option<Vec<u8>>)
    ensures
        match payload {
            Some(bytes) => gzip_payload(data@) == Some(bytes@),
            None => gzip_payload(data@) is None,
        },
{
    let mut decoder = GzDecoder::new(data);
    let mut bytes = Vec::with_capacity(data.len());
    match decoder.read_to_end(&mut bytes) {
        Ok(_) => Some(bytes),
        Err(_) => None,
    }
}

/// `String::from_utf8`: the string that `bytes` encode, or `None` where
/// they are not valid UTF-8.
#[verifier::external_body]
fn utf8_string(bytes: Vec<u8>) -> (text: Option<String>)
    ensures
        match text {
            Some(s) => valid_utf8(bytes@) && s@ == decode_utf8(bytes@),
            None => !valid_utf8(bytes@),
        },
{
    match String::from_utf8(bytes) {
        Ok(s) => Some(s),
        Err(_) => None,
    }
}

/// A text or a failure, with the text as its characters.
pub open spec fn text_outcome(outcome: Result<String, DumpError>) -> Result<
    Seq<char>,
    DumpError,
> {
    match outcome {
        Ok(text) => Ok(text@),
        Err(e) => Err(e),
    }
}

/// The text that `bytes` encode in UTF-8. Bytes that are no valid UTF-8 are
/// a failure: nothing is replaced or skipped.
pub open spec fn decoded(bytes: Seq<u8>) -> Result<Seq<char>, DumpError> {
    if valid_utf8(bytes) {
        Ok(decode_utf8(bytes))
    } else {
        Err(DumpError::Encoding)
    }
}

/// The text of a document whose inflation gave `payload`.
pub open spec fn inflated_text(payload: Option<Seq<u8>>) -> Result<Seq<char>, DumpError> {
    match payload {
        Some(bytes) => decoded(bytes),
        None => Err(DumpError::Decompress),
    }
}

/// The text of the document stored as `data`: where `data` starts like a
/// gzip stream, the decoded payload of that stream, else `data` decoded
/// as it is.
pub open spec fn document_text(data: Seq<u8>) -> Result<Seq<char>, DumpError> {
    if has_gzip_magic(data) {
        inflated_text(gzip_payload(data))
    } else {
        decoded(data)
    }
}

/// The text of a document that does not start like a gzip stream is the
/// document itself: encoded as UTF-8 again, the text is the stored bytes.
pub proof fn lemma_plain_document_is_kept(data: Seq<u8>)
    requires
        !has_gzip_magic(data),
        valid_utf8(data),
    ensures
        document_text(data) == Ok::<Seq<char>, DumpError>(decode_utf8(data)),
        encode_utf8(decode_utf8(data)) == data,
{
    decode_utf8_encode_utf8(data);
}

/// Decodes `bytes` as UTF-8, strictly.
pub fn decode_document(bytes: Vec<u8>) -> (text: Result<String, DumpError>)
    ensures
        text_outcome(text) == decoded(bytes@),
{
    match utf8_string(bytes) {
        Some(s) => Ok(s),
        None => Err(DumpError::Encoding),
    }
}

/// The text of a compressed document, given what inflating it gave.
pub fn text_of_inflated(payload: Option<Vec<u8>>) -> (text: Result<String, DumpError>)
    ensures
        text_outcome(text) == inflated_text(
            match payload {
                Some(bytes) => Some(bytes@),
                None => None,
            },
        ),
{
    match payload {
        Some(bytes) => decode_document(bytes),
        None => Err(DumpError::Decompress),
    }
}

/// The text of the document stored as `data`.
///
/// A document that starts with `1F 8B 08` is inflated first, and it is a
/// failure if that cannot be done; any other document is taken as it is.
/// The bytes must then be valid UTF-8.
pub fn expand_document(data: &[u8]) -> (text: Result<String, DumpError>)
    ensures
        text_outcome(text) == document_text(data@),
{
    if looks_like_gzip(data) {
        text_of_inflated(inflate(data))
    } else {
        decode_document(slice_to_vec(data))
    }
}

} // verus!
