//! The ways a dump can fail.

use vstd::prelude::*;
use vstd::string::*;

verus! {

/// Why an operation on a font stopped.
///
/// Every failure ends the operation at once: nothing is retried, and no
/// damaged document is replaced by a stand-in.
#[derive(Clone, Copy, Debug, PartialEq, Eq, Structural)]
pub enum DumpError {
    /// The glyph id argument is neither `all` nor a 16-bit unsigned integer.
    Input,
    /// The font file could not be read. This library reads no file itself:
    /// the kind is for callers that do.
    Io,
    /// The font container is malformed, or it holds no `SVG ` table.
    ContainerParse,
    /// The `SVG ` table is malformed: its header is cut short, or a record
    /// points outside the table.
    TableParse,
    /// A document that starts like a gzip stream could not be inflated.
    Decompress,
    /// A document is not valid UTF-8.
    Encoding,
}

impl DumpError {
    /// The text that [`DumpError::message`] returns.
    pub open spec fn description(self) -> Seq<char> {
        match self {
            DumpError::Input => "the glyph id must be `all` or an integer from 0 to 65535"@,
            DumpError::Io => "the font file could not be read"@,
            DumpError::ContainerParse => "the font is malformed or has no SVG table"@,
            DumpError::TableParse => "the SVG table is malformed"@,
            DumpError::Decompress => "a compressed SVG document could not be inflated"@,
            DumpError::Encoding => "an SVG document is not valid UTF-8"@,
        }
    }

    /// A one-line description of the failure, for the user.
    pub fn message(&self) -> (text: String)
        ensures
            text@ == self.description(),
    {
        match self {
            DumpError::Input => String::from_str(
                "the glyph id must be `all` or an integer from 0 to 65535",
            ),
            DumpError::Io => String::from_str("the font file could not be read"),
            DumpError::ContainerParse => String::from_str(
                "the font is malformed or has no SVG table",
            ),
            DumpError::TableParse => String::from_str("the SVG table is malformed"),
            DumpError::Decompress => String::from_str(
                "a compressed SVG document could not be inflated",
            ),
            DumpError::Encoding => String::from_str("an SVG document is not valid UTF-8"),
        }
    }
}

/// `std::io::Error`, which is handed on without a look inside.
#[verifier::external_type_specification]
#[verifier::external_body]
pub struct ExIoError(std::io::Error);

/// The `std::io::Error` of kind `Other` whose payload is the text `message`.
pub uninterp spec fn other_io_error(message: Seq<char>) -> std::io::Error;

/// `std::io::Error::new` with the kind `Other` and `message` as the payload.
/// The error that comes back is, by definition, `other_io_error(message)`:
/// its kind and the text that it shows are those two arguments and nothing
/// else. An `std::io::Error` is opaque here, so no more is claimed of it.
#[verifier::external_body]
fn io_error_other(message: String) -> (error: std::io::Error)
    ensures
        error == other_io_error(message@),
{
    std::io::Error::new(std::io::ErrorKind::Other, message)
}

/// Wraps a failure as the `std::io::Error` of kind `Other` that carries the
/// failure's message, for callers that report through `std::io::Result`.
pub fn to_io_error(err: DumpError) -> (error: std::io::Error)
    ensures
        error == other_io_error(err.description()),
{
    io_error_other(err.message())
}

} // verus!
