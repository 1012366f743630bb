//! Reader for the `SVG ` table of a font: the glyph ranges that it lists, the
//! documents that they point at, and two reports made from them.
//!
//! [`dump::hashes`] reports the SHA-256 digest of every stored document, and
//! [`dump::dump_glyph`] the text of the document of one glyph, or of all.
//! Both take the bytes of a font and give a [`dump::Report`]: the lines to
//! print, and the failure that ended the work, if one did. Nothing here
//! reads a file or prints.
//!
//! The way from a font to a report goes through the modules in this order:
//! [`font`] finds the table in the font, [`table`] reads its header and its
//! records, [`document`] turns the stored bytes of a document into text,
//! [`digest`] writes the line with the digest of a document, and [`dump`]
//! makes the reports. [`glyph`] reads the glyph id argument, [`text`] writes
//! numbers and bytes as text, [`bytes`] reads big-endian integers, and
//! [`error`] names the failures.

pub mod bytes;
pub mod digest;
pub mod document;
pub mod dump;
pub mod error;
pub mod font;
pub mod glyph;
pub mod table;
pub mod text;
