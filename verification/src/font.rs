//! Finding the `SVG ` table inside a font.
//!
//! Reading the font container (OpenType, a collection, WOFF or WOFF2) is
//! left to the `allsorts` crate. This module tells a WOFF2 font from the
//! others by its first four bytes, asks `allsorts` for one table, and turns
//! the answer into a value of this library.
//!
//! A WOFF2 font is not read through the table provider of `allsorts`. That
//! provider rebuilds the glyph tables of the font before it hands out any
//! table, and on some damaged fonts it panics while it does so. The table is
//! read from the directory of the font, which needs none of that.
//!
//! A collection whose header counts more fonts than the collection has
//! room to list is not handed to `allsorts` at all: it has no table, and
//! `allsorts` takes the size of the list in `usize` without a check.

use allsorts::binary::read::ReadScope;
use allsorts::font_data::FontData;
use allsorts::tables::FontTableProvider;
use allsorts::woff2::Woff2Font;
use vstd::prelude::*;
use crate::bytes::{be32, read_be32};
use crate::error::DumpError;

verus! {

/// The tag of the `SVG ` table: the four characters `S`, `V`, `G` and a
/// space, as one big-endian integer.
pub const SVG_TAG: u32 = 0x5356_4720;

/// The first four bytes of a WOFF2 font: the characters `w`, `O`, `F` and
/// `2`, as one big-endian integer.
pub const WOFF2_MAGIC: u32 = 0x774f_4632;

/// The first four bytes of a font collection: the characters `t`, `t`, `c`
/// and `f`, as one big-endian integer.
pub const COLLECTION_MAGIC: u32 = 0x7474_6366;

/// The number of bytes of the header of a collection: the four characters,
/// two 16-bit version numbers, and the 32-bit number of fonts. The list of
/// the fonts follows, with four bytes for each.
pub const COLLECTION_HEADER_SIZE: usize = 12;

/// The index of the font that is read where a container holds several.
pub const FIRST_FONT: usize = 0;

/// Whether `font` starts with the four bytes that mark a WOFF2 font.
pub open spec fn has_woff2_magic(font: Seq<u8>) -> bool {
    font.len() >= 4 && be32(font, 0) == WOFF2_MAGIC
}

/// Whether `font` is a collection that is cut short: its header is whole and
/// counts more fonts than the bytes after the header can list.
pub open spec fn collection_is_cut(font: Seq<u8>) -> bool {
    &&& font.len() >= COLLECTION_HEADER_SIZE
    &&& be32(font, 0) == COLLECTION_MAGIC
    &&& COLLECTION_HEADER_SIZE + 4 * be32(font, 8) > font.len()
}

/// Whether a WOFF2 font can be read on this machine. The directory of a
/// WOFF2 font is read with sums in `usize` that can pass 32 bits, so it is
/// read only where `usize` has 64.
pub open spec fn reads_woff2() -> bool {
    usize::BITS == 64
}

/// The bytes of the table with tag `tag` in font `index` of the container
/// `font`, where `font` is no WOFF2 font and no collection that is cut
/// short: an OpenType font, a collection, or a WOFF font. `None` where the
/// container cannot be read, or the font has no such table.
pub uninterp spec fn container_table(font: Seq<u8>, tag: u32, index: usize) -> Option<Seq<u8>>;

/// The bytes that the directory of the WOFF2 font `font` holds for the table
/// with tag `tag` of font `index`, as they are after the font's data has
/// been decompressed. `None` where the font cannot be read, or has no such
/// font or no such table.
pub uninterp spec fn woff2_table(font: Seq<u8>, tag: u32, index: usize) -> Option<Seq<u8>>;

/// The bytes of the table with tag `tag` in font `index` of the container
/// `font`, or `None` where there are none to be had.
pub open spec fn font_table(font: Seq<u8>, tag: u32, index: usize) -> Option<Seq<u8>> {
    if has_woff2_magic(font) {
        if reads_woff2() {
            woff2_table(font, tag, index)
        } else {
            None
        }
    } else if collection_is_cut(font) {
        None
    } else {
        container_table(font, tag, index)
    }
}

/// Whether `font` starts with the four bytes that mark a WOFF2 font.
pub fn is_woff2(font: &[u8]) -> (woff2: bool)
    ensures
        woff2 == has_woff2_magic(font@),
{
    font.len() >= 4 && read_be32(font, 0) == WOFF2_MAGIC
}

/// Whether `font` is a collection that is cut short.
pub fn is_cut_collection(font: &[u8]) -> (cut: bool)
    ensures
        cut == collection_is_cut(font@),
{
    font.len() >= COLLECTION_HEADER_SIZE && read_be32(font, 0) == COLLECTION_MAGIC
        && COLLECTION_HEADER_SIZE as u64 + 4 * (read_be32(font, 8) as u64) > font.len() as u64
}

/// Reads `font` as an `allsorts::font_data::FontData`, takes the table
/// provider of font `index`, and calls `read_table_data` on it. The bytes
/// that come back are, by definition, `container_table(font, tag, index)`;
/// an error at any of the three steps gives `None`.
///
/// Two kinds of font are left out. For a WOFF2 font `table_provider` can
/// panic. For a collection, `FontData` multiplies the number of fonts by
/// four in `usize`, unchecked, before it looks whether the list fits: where
/// the list does fit, as is asked here, the product is below the length of
/// the font.
#[verifier::external_body]
fn read_container_table(font: &[u8], tag: u32, index: usize) -> (found: Option<Vec<u8>>)
    requires
        !has_woff2_magic(font@),
        !collection_is_cut(font@),
    ensures
        match found {
            Some(bytes) => container_table(font@, tag, index) == Some(bytes@),
            None => container_table(font@, tag, index) is None,
        },
{
    let file = ReadScope::new(font).read::<FontData<'_>>().ok()?;
    let provider = file.table_provider(index).ok()?;
    let data = provider.read_table_data(tag).ok()?;
    Some(data.into_owned())
}

/// Reads `font` as an `allsorts::woff2::Woff2Font` and calls `read_table` on
/// it. The bytes that come back are, by definition,
/// `woff2_table(font, tag, index)`; an error at either step, a missing font
/// and a missing table give `None`.
///
/// A machine whose `usize` has 32 bits is left out: reading the directory
/// adds up the lengths of the tables in `usize`.
#[verifier::external_body]
fn read_woff2_table(font: &[u8], tag: u32, index: usize) -> (found: Option<Vec<u8>>)
    requires
        reads_woff2(),
    ensures
        match found {
            Some(bytes) => woff2_table(font@, tag, index) == Some(bytes@),
            None => woff2_table(font@, tag, index) is None,
        },
{
    let file = ReadScope::new(font).read::<Woff2Font<'_>>().ok()?;
    let data = file.read_table(tag, index).ok()??;
    Some(data.into_data().into_owned())
}

/// The bytes of the table with tag `tag` in font `index` of the container
/// `font`. A collection that is cut short has no table, and on a machine
/// that cannot read a WOFF2 font, such a font has none.
pub fn read_font_table(font: &[u8], tag: u32, index: usize) -> (found: Option<Vec<u8>>)
    ensures
        match found {
            Some(bytes) => font_table(font@, tag, index) == Some(bytes@),
            None => font_table(font@, tag, index) is None,
        },
{
    if is_woff2(font) {
        if usize::BITS == 64 {
            read_woff2_table(font, tag, index)
        } else {
            None
        }
    } else if is_cut_collection(font) {
        None
    } else {
        read_container_table(font, tag, index)
    }
}

/// The table that a lookup found, or the failure that a lookup without a
/// result stands for.
pub fn table_or_failure(found: Option<Vec<u8>>) -> (table: Result<Vec<u8>, DumpError>)
    ensures
        table == match found {
            Some(bytes) => Ok::<Vec<u8>, DumpError>(bytes),
            None => Err::<Vec<u8>, DumpError>(DumpError::ContainerParse),
        },
{
    match found {
        Some(bytes) => Ok(bytes),
        None => Err(DumpError::ContainerParse),
    }
}

/// The bytes of the `SVG ` table of the first font of `font`, exactly as the
/// font stores them.
pub fn locate_svg_table(font: &[u8]) -> (table: Result<Vec<u8>, DumpError>)
    ensures
        match table {
            Ok(bytes) => font_table(font@, SVG_TAG, FIRST_FONT) == Some(bytes@),
            Err(e) => e == DumpError::ContainerParse && font_table(font@, SVG_TAG, FIRST_FONT)
                is None,
        },
{
    table_or_failure(read_font_table(font, SVG_TAG, FIRST_FONT))
}

} // verus!
