//! The digest of a document and the line that reports it.

use sha2::{Digest, Sha256};
use vstd::prelude::*;
use vstd::string::StringExecFns;
use crate::text::{decimal_text, hex_text, hexify, push_decimal};

verus! {

/// The SHA-256 digest of `data`.
pub uninterp spec fn sha256(data: Seq<u8>) -> Seq<u8>;

/// The number of bytes of a SHA-256 digest: 256 bits.
pub const DIGEST_SIZE: usize = 32;

/// `sha2::Sha256::digest`: hashes `data` with a hasher of its own, so that
/// nothing hashed before has a part in the result. The bytes that come back
/// are, by definition, `sha256(data)`, and there are 32 of them.
#[verifier::external_body]
fn sha256_digest(data: &[u8]) -> (digest: Vec<u8>)
    ensures
        digest@ == sha256(data@),
        digest@.len() == DIGEST_SIZE,
{
    Sha256::digest(data).to_vec()
}

/// The line that reports `digest` for the glyphs from `start_glyph_id` to
/// `end_glyph_id`: the two ids in decimal with an arrow between them, a
/// colon, and the digest in lowercase hexadecimal.
pub open spec fn digest_line_text(start_glyph_id: u16, end_glyph_id: u16, digest: Seq<u8>) -> Seq<
    char,
> {
    decimal_text(start_glyph_id as nat) + seq![' ', '\u{2192}', ' '] + decimal_text(
        end_glyph_id as nat,
    ) + seq![':', ' '] + hex_text(digest)
}

/// The line of a digest summary for the stored bytes `document` of a record.
/// The digest is taken of the bytes as stored, compressed or not.
pub open spec fn document_digest_line(
    start_glyph_id: u16,
    end_glyph_id: u16,
    document: Seq<u8>,
) -> Seq<char> {
    digest_line_text(start_glyph_id, end_glyph_id, sha256(document))
}

/// A digest line ends with two hexadecimal digits for every byte of the
/// digest: with 64 of them where the digest has 32 bytes.
pub proof fn lemma_digest_line_ends_with_digest(
    start_glyph_id: u16,
    end_glyph_id: u16,
    digest: Seq<u8>,
)
    ensures
        digest_line_text(start_glyph_id, end_glyph_id, digest).len() >= 2 * digest.len(),
        digest_line_text(start_glyph_id, end_glyph_id, digest).skip(
            digest_line_text(start_glyph_id, end_glyph_id, digest).len() - 2 * digest.len(),
        ) == hex_text(digest),
        hex_text(digest).len() == 2 * digest.len(),
{
}

/// Writes the line that reports `digest` for a range of glyph ids.
pub fn digest_line(start_glyph_id: u16, end_glyph_id: u16, digest: &[u8]) -> (line: String)
    ensures
        line@ == digest_line_text(start_glyph_id, end_glyph_id, digest@),
{
    let mut line = String::new();
    push_decimal(&mut line, start_glyph_id);
    line.push(' ');
    line.push('\u{2192}');
    line.push(' ');
    push_decimal(&mut line, end_glyph_id);
    line.push(':');
    line.push(' ');
    let hex = hexify(digest);
    line.append(hex.as_str());
    line
}

/// Hashes the stored bytes `document` of a record and writes its line of a
/// digest summary.
pub fn hash_document(start_glyph_id: u16, end_glyph_id: u16, document: &[u8]) -> (line: String)
    ensures
        line@ == document_digest_line(start_glyph_id, end_glyph_id, document@),
        sha256(document@).len() == DIGEST_SIZE,
{
    let digest = sha256_digest(document);
    digest_line(start_glyph_id, end_glyph_id, digest.as_slice())
}

} // verus!
