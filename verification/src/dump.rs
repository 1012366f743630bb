//! The two reports on the `SVG ` table of a font: a digest of every stored
//! document, and the text of the documents of one glyph or of all.
//!
//! A report is made in one pass over the records, in the order in which the
//! table stores them. The first failure ends the pass; the lines made before
//! it stay in the report.

use vstd::prelude::*;
use crate::digest::{
    document_digest_line, hash_document, lemma_digest_line_ends_with_digest, sha256, DIGEST_SIZE,
};
use crate::document::{document_text, expand_document};
use crate::error::DumpError;
use crate::font::{font_table, locate_svg_table, FIRST_FONT, SVG_TAG};
use crate::glyph::{glyph_selection, GlyphToDump};
use crate::table::{
    declared_count, document_bytes, document_fits, first_covering, list_offset, raw_record,
    record_at, well_formed_header, well_formed_table, DocumentRecord, SvgTable, HEADER_SIZE,
    RECORD_SIZE,
};
use crate::text::hex_text;

verus! {

/// The outcome of a dump: the lines to print, in order, and the failure that
/// ended the dump, if one did.
#[derive(Debug)]
pub struct Report {
    /// The lines made before the dump ended.
    pub lines: Vec<String>,
    /// The failure that ended the dump, or `None` where it ran to the end.
    pub error: Option<DumpError>,
}

/// A [`Report`] with every line as its characters.
#[verifier::ext_equal]
pub struct ReportView {
    /// The lines made before the dump ended.
    pub lines: Seq<Seq<char>>,
    /// The failure that ended the dump, or `None` where it ran to the end.
    pub error: Option<DumpError>,
}

/// The characters of each of `lines`.
pub open spec fn line_views(lines: Seq<String>) -> Seq<Seq<char>> {
    Seq::new(lines.len(), |i: int| lines[i]@)
}

impl View for Report {
    type V = ReportView;

    open spec fn view(&self) -> ReportView {
        ReportView { lines: line_views(self.lines@), error: self.error }
    }
}

impl Report {
    /// The report of a dump that failed before it made a line.
    pub fn failed(error: DumpError) -> (report: Report)
        ensures
            report@ == failure(error),
    {
        Report { lines: Vec::new(), error: Some(error) }
    }

    /// Whether the dump ran to its end.
    pub fn succeeded(&self) -> (done: bool)
        ensures
            done == (self@.error is None),
    {
        self.error.is_none()
    }
}

/// The report of a dump that failed before it made a line.
pub open spec fn failure(error: DumpError) -> ReportView {
    ReportView { lines: Seq::empty(), error: Some(error) }
}

/// The report of a dump whose only step gave `entry`.
pub open spec fn single(entry: Result<Seq<char>, DumpError>) -> ReportView {
    match entry {
        Ok(line) => ReportView { lines: seq![line], error: None },
        Err(e) => failure(e),
    }
}

/// The report of a pass over `entries`, where each entry is what one record
/// gives: a line, or a failure. The lines before the first failure are kept,
/// that failure is reported, and what follows it has no part in the report.
pub open spec fn gathered(entries: Seq<Result<Seq<char>, DumpError>>) -> ReportView
    decreases entries.len(),
{
    if entries.len() == 0 {
        ReportView { lines: Seq::empty(), error: None }
    } else {
        let before = gathered(entries.drop_last());
        if before.error is Some {
            before
        } else {
            match entries.last() {
                Ok(line) => ReportView { lines: before.lines.push(line), error: None },
                Err(e) => ReportView { lines: before.lines, error: Some(e) },
            }
        }
    }
}

/// What record `index` of `table` gives to a digest summary: the line with
/// the digest of its stored document, or a failure where the record points
/// outside the table.
pub open spec fn digest_entry(table: Seq<u8>, index: int) -> Result<Seq<char>, DumpError> {
    match record_at(table, index) {
        Ok(record) => Ok(
            document_digest_line(
                record.start_glyph_id,
                record.end_glyph_id,
                document_bytes(table, record),
            ),
        ),
        Err(e) => Err(e),
    }
}

/// What record `index` of `table` gives to a dump of all glyphs: the text of
/// its document, or a failure where the record points outside the table or
/// the document has no text.
pub open spec fn text_entry(table: Seq<u8>, index: int) -> Result<Seq<char>, DumpError> {
    match record_at(table, index) {
        Ok(record) => document_text(document_bytes(table, record)),
        Err(e) => Err(e),
    }
}

/// Whether the digest of the stored document of each of the first `count`
/// records of `table` has 32 bytes, so that its line ends with 64
/// hexadecimal digits.
pub open spec fn digests_are_whole(table: Seq<u8>, count: int) -> bool {
    forall|i: int|
        0 <= i < count ==> sha256(document_bytes(table, #[trigger] raw_record(table, i))).len()
            == DIGEST_SIZE
}

/// What every record of `table` gives to a digest summary, in order.
pub open spec fn digest_entries(table: Seq<u8>) -> Seq<Result<Seq<char>, DumpError>> {
    Seq::new(declared_count(table) as nat, |i: int| digest_entry(table, i))
}

/// What every record of `table` gives to a dump of all glyphs, in order.
pub open spec fn text_entries(table: Seq<u8>) -> Seq<Result<Seq<char>, DumpError>> {
    Seq::new(declared_count(table) as nat, |i: int| text_entry(table, i))
}

/// The digest summary of the checked table `table`: one line for each
/// record, in the order of storage.
pub open spec fn summary_report(table: Seq<u8>) -> ReportView {
    gathered(digest_entries(table))
}

/// The dump of one glyph from the checked table `table`: the text of the
/// document of the first record that covers the glyph, and nothing where no
/// record covers it.
pub open spec fn glyph_report(table: Seq<u8>, glyph_id: u16) -> ReportView {
    match first_covering(table, glyph_id, 0) {
        Ok(Some(record)) => single(document_text(document_bytes(table, record))),
        Ok(None) => ReportView { lines: Seq::empty(), error: None },
        Err(e) => failure(e),
    }
}

/// The dump of `selection` from the checked table `table`.
pub open spec fn dump_report(table: Seq<u8>, selection: GlyphToDump) -> ReportView {
    match selection {
        GlyphToDump::All => gathered(text_entries(table)),
        GlyphToDump::Id(glyph_id) => glyph_report(table, glyph_id),
    }
}

/// The digest summary of a table given as its bytes.
pub open spec fn table_summary(table: Seq<u8>) -> ReportView {
    if well_formed_header(table) {
        summary_report(table)
    } else {
        failure(DumpError::TableParse)
    }
}

/// The dump of `selection` from a table given as its bytes.
pub open spec fn table_dump(table: Seq<u8>, selection: GlyphToDump) -> ReportView {
    if well_formed_header(table) {
        dump_report(table, selection)
    } else {
        failure(DumpError::TableParse)
    }
}

/// The digest summary of the font `font`.
pub open spec fn font_summary(font: Seq<u8>) -> ReportView {
    match font_table(font, SVG_TAG, FIRST_FONT) {
        Some(table) => table_summary(table),
        None => failure(DumpError::ContainerParse),
    }
}

/// The dump of `selection` from the font `font`.
pub open spec fn font_dump(font: Seq<u8>, selection: GlyphToDump) -> ReportView {
    match font_table(font, SVG_TAG, FIRST_FONT) {
        Some(table) => table_dump(table, selection),
        None => failure(DumpError::ContainerParse),
    }
}

/// The dump that the glyph id argument `glyph_id` asks of the font `font`.
/// An argument that cannot be read fails the dump whatever the font holds.
pub open spec fn glyph_dump(font: Seq<u8>, glyph_id: Seq<char>) -> ReportView {
    match glyph_selection(glyph_id) {
        Ok(selection) => font_dump(font, selection),
        Err(e) => failure(e),
    }
}

/// Once a pass has failed, the entries after the failure change nothing.
pub proof fn lemma_gathered_stops(entries: Seq<Result<Seq<char>, DumpError>>, upto: int)
    requires
        0 <= upto <= entries.len(),
        gathered(entries.take(upto)).error is Some,
    ensures
        gathered(entries) == gathered(entries.take(upto)),
    decreases entries.len(),
{
    if upto == entries.len() {
        assert(entries.take(upto) =~= entries);
    } else {
        assert(entries.drop_last().take(upto) =~= entries.take(upto));
        lemma_gathered_stops(entries.drop_last(), upto);
    }
}

/// One more entry after a pass that has not failed.
proof fn lemma_gathered_step(entries: Seq<Result<Seq<char>, DumpError>>, upto: int)
    requires
        0 <= upto < entries.len(),
        gathered(entries.take(upto)).error is None,
    ensures
        gathered(entries.take(upto + 1)) == match entries[upto] {
            Ok(line) => ReportView {
                lines: gathered(entries.take(upto)).lines.push(line),
                error: None,
            },
            Err(e) => ReportView { lines: gathered(entries.take(upto)).lines, error: Some(e) },
        },
{
    assert(entries.take(upto + 1).drop_last() =~= entries.take(upto));
}

/// A report holds the lines of the entries before the first failure, in
/// their order, and that failure: line `i` is what entry `i` gives, the
/// report has no failure exactly where it has a line for every entry, and a
/// failure that it has is what the entry after the last line gives.
pub proof fn lemma_gathered_lines(entries: Seq<Result<Seq<char>, DumpError>>)
    ensures
        gathered(entries).lines.len() <= entries.len(),
        forall|i: int|
            0 <= i < gathered(entries).lines.len() ==> #[trigger] entries[i] == Ok::<
                Seq<char>,
                DumpError,
            >(gathered(entries).lines[i]),
        gathered(entries).error is None <==> gathered(entries).lines.len() == entries.len(),
        gathered(entries).error matches Some(e) ==> entries[gathered(entries).lines.len() as int]
            == Err::<Seq<char>, DumpError>(e),
    decreases entries.len(),
{
    if entries.len() > 0 {
        lemma_gathered_lines(entries.drop_last());
        let before = gathered(entries.drop_last());
        assert forall|i: int| 0 <= i < gathered(entries).lines.len() implies #[trigger] entries[i]
            == Ok::<Seq<char>, DumpError>(gathered(entries).lines[i]) by {
            if i < before.lines.len() {
                assert(entries.drop_last()[i] == entries[i]);
            }
        }
    }
}

/// Where every entry is a line, the report has all of them and no failure.
pub proof fn lemma_gathered_all(entries: Seq<Result<Seq<char>, DumpError>>)
    requires
        forall|i: int| 0 <= i < entries.len() ==> (#[trigger] entries[i]) is Ok,
    ensures
        gathered(entries).error is None,
        gathered(entries).lines.len() == entries.len(),
        forall|i: int|
            0 <= i < entries.len() ==> #[trigger] entries[i] == Ok::<Seq<char>, DumpError>(
                gathered(entries).lines[i],
            ),
{
    lemma_gathered_lines(entries);
}

/// Every line of a digest summary is the line of the record at its place:
/// it is made of the glyph range and the stored document of that record
/// alone, whatever the records before it hold.
pub proof fn lemma_summary_lines(table: Seq<u8>, index: int)
    requires
        0 <= index < summary_report(table).lines.len(),
    ensures
        index < declared_count(table),
        record_at(table, index) matches Ok(record) && summary_report(table).lines[index]
            == document_digest_line(
            record.start_glyph_id,
            record.end_glyph_id,
            document_bytes(table, record),
        ),
{
    lemma_gathered_lines(digest_entries(table));
    assert(digest_entries(table)[index] == digest_entry(table, index));
}

/// A line of a digest summary ends with the 64 hexadecimal digits of the
/// digest of its record, where that digest is whole.
pub proof fn lemma_summary_line_ends_with_digest(table: Seq<u8>, index: int)
    requires
        0 <= index < summary_report(table).lines.len(),
        digests_are_whole(table, summary_report(table).lines.len() as int),
    ensures
        summary_report(table).lines[index].len() >= 64,
        summary_report(table).lines[index].skip(summary_report(table).lines[index].len() - 64)
            == hex_text(sha256(document_bytes(table, raw_record(table, index)))),
{
    lemma_summary_lines(table, index);
    let record = raw_record(table, index);
    lemma_digest_line_ends_with_digest(
        record.start_glyph_id,
        record.end_glyph_id,
        sha256(document_bytes(table, record)),
    );
}

/// Two records with the same glyph range and the same stored document have
/// the same line in a digest summary, in whatever table and at whatever
/// place they stand.
pub proof fn lemma_digest_entry_depends_on_record_alone(
    table: Seq<u8>,
    index: int,
    other_table: Seq<u8>,
    other_index: int,
)
    requires
        record_at(table, index) is Ok,
        record_at(other_table, other_index) is Ok,
        record_at(table, index)->Ok_0.start_glyph_id == record_at(
            other_table,
            other_index,
        )->Ok_0.start_glyph_id,
        record_at(table, index)->Ok_0.end_glyph_id == record_at(
            other_table,
            other_index,
        )->Ok_0.end_glyph_id,
        document_bytes(table, record_at(table, index)->Ok_0) == document_bytes(
            other_table,
            record_at(other_table, other_index)->Ok_0,
        ),
    ensures
        digest_entry(table, index) == digest_entry(other_table, other_index),
{
}

/// A digest summary of a table whose every document lies inside it has one
/// line for each record that the table declares, and no failure.
pub proof fn lemma_summary_of_well_formed_table(table: Seq<u8>)
    requires
        well_formed_table(table),
    ensures
        table_summary(table).error is None,
        table_summary(table).lines.len() == declared_count(table),
        forall|i: int|
            0 <= i < declared_count(table) ==> #[trigger] table_summary(table).lines[i]
                == document_digest_line(
                raw_record(table, i).start_glyph_id,
                raw_record(table, i).end_glyph_id,
                document_bytes(table, raw_record(table, i)),
            ),
{
    let entries = digest_entries(table);
    lemma_gathered_all(entries);
    assert forall|i: int| 0 <= i < declared_count(table) implies #[trigger] table_summary(
        table,
    ).lines[i] == document_digest_line(
        raw_record(table, i).start_glyph_id,
        raw_record(table, i).end_glyph_id,
        document_bytes(table, raw_record(table, i)),
    ) by {
        assert(entries[i] == digest_entry(table, i));
    }
}

/// A dump of all glyphs in which every record gives a text has one line for
/// each record that the table declares, in the order of storage, and no
/// failure.
pub proof fn lemma_dump_all_lines(table: Seq<u8>)
    requires
        forall|i: int| 0 <= i < declared_count(table) ==> (#[trigger] text_entry(table, i)) is Ok,
    ensures
        dump_report(table, GlyphToDump::All).error is None,
        dump_report(table, GlyphToDump::All).lines.len() == declared_count(table),
        forall|i: int|
            0 <= i < declared_count(table) ==> text_entry(table, i) == Ok::<Seq<char>, DumpError>(
                #[trigger] dump_report(table, GlyphToDump::All).lines[i],
            ),
{
    let entries = text_entries(table);
    lemma_gathered_all(entries);
    assert forall|i: int| 0 <= i < declared_count(table) implies text_entry(table, i) == Ok::<
        Seq<char>,
        DumpError,
    >(#[trigger] dump_report(table, GlyphToDump::All).lines[i]) by {
        assert(entries[i] == text_entry(table, i));
    }
}

/// The search for a glyph from record `from` on finds record `index`, where
/// that record covers the glyph and the records from `from` up to it lie
/// inside the table and do not cover it.
proof fn lemma_first_covering_finds(table: Seq<u8>, glyph_id: u16, from: int, index: int)
    requires
        0 <= from <= index < declared_count(table),
        forall|j: int|
            from <= j <= index ==> document_fits(table, #[trigger] raw_record(table, j)),
        forall|j: int| from <= j < index ==> !(#[trigger] raw_record(table, j)).covers(glyph_id),
        raw_record(table, index).covers(glyph_id),
    ensures
        first_covering(table, glyph_id, from) == Ok::<Option<DocumentRecord>, DumpError>(
            Some(raw_record(table, index)),
        ),
    decreases index - from,
{
    if from < index {
        lemma_first_covering_finds(table, glyph_id, from + 1, index);
    }
}

/// The search for a glyph from record `from` on finds nothing, where the
/// records from `from` on lie inside the table and none covers the glyph.
proof fn lemma_first_covering_misses(table: Seq<u8>, glyph_id: u16, from: int)
    requires
        0 <= from,
        forall|j: int|
            from <= j < declared_count(table) ==> document_fits(
                table,
                #[trigger] raw_record(table, j),
            ),
        forall|j: int|
            from <= j < declared_count(table) ==> !(#[trigger] raw_record(table, j)).covers(
                glyph_id,
            ),
    ensures
        first_covering(table, glyph_id, from) == Ok::<Option<DocumentRecord>, DumpError>(None),
    decreases declared_count(table) - from,
{
    if from < declared_count(table) {
        lemma_first_covering_misses(table, glyph_id, from + 1);
    }
}

/// The dump of a glyph is the text of the first record that covers it:
/// the records after that one are not read, so they may cover the glyph
/// too, or point outside the table.
pub proof fn lemma_first_match_wins(table: Seq<u8>, glyph_id: u16, index: int)
    requires
        0 <= index < declared_count(table),
        forall|j: int| 0 <= j <= index ==> document_fits(table, #[trigger] raw_record(table, j)),
        forall|j: int| 0 <= j < index ==> !(#[trigger] raw_record(table, j)).covers(glyph_id),
        raw_record(table, index).covers(glyph_id),
    ensures
        dump_report(table, GlyphToDump::Id(glyph_id)) == single(text_entry(table, index)),
{
    lemma_first_covering_finds(table, glyph_id, 0, index);
}

/// The dump of a glyph that exactly one record covers, from a table whose
/// every document lies inside it, is the text of the document of that
/// record and nothing else.
pub proof fn lemma_dump_of_glyph_covered_once(table: Seq<u8>, glyph_id: u16, index: int)
    requires
        well_formed_table(table),
        0 <= index < declared_count(table),
        raw_record(table, index).covers(glyph_id),
        forall|j: int|
            0 <= j < declared_count(table) && j != index ==> !(#[trigger] raw_record(
                table,
                j,
            )).covers(glyph_id),
    ensures
        table_dump(table, GlyphToDump::Id(glyph_id)) == single(
            document_text(document_bytes(table, raw_record(table, index))),
        ),
{
    lemma_first_match_wins(table, glyph_id, index);
}

/// The dump of a glyph that no record covers, from a table whose every
/// document lies inside it, has no line and no failure.
pub proof fn lemma_dump_of_glyph_not_covered(table: Seq<u8>, glyph_id: u16)
    requires
        well_formed_table(table),
        forall|j: int|
            0 <= j < declared_count(table) ==> !(#[trigger] raw_record(table, j)).covers(glyph_id),
    ensures
        table_dump(table, GlyphToDump::Id(glyph_id)) == (ReportView {
            lines: Seq::empty(),
            error: None,
        }),
{
    lemma_first_covering_misses(table, glyph_id, 0);
}

/// A table that ends inside its header, or whose document list starts or
/// ends beyond the end of the table, fails every report with
/// [`DumpError::TableParse`], and gives no line.
pub proof fn lemma_cut_header_fails(table: Seq<u8>, selection: GlyphToDump)
    requires
        table.len() < HEADER_SIZE || list_offset(table) + 2 > table.len() || list_offset(table) + 2
            + RECORD_SIZE * declared_count(table) > table.len(),
    ensures
        table_summary(table) == failure(DumpError::TableParse),
        table_dump(table, selection) == failure(DumpError::TableParse),
{
}

/// The digest summary of `table`: for every record, in the order of
/// storage, a line with its glyph range and the SHA-256 digest of its
/// document as stored, before any decompression. Every digest has 32 bytes,
/// and so 64 hexadecimal digits in its line.
pub fn digest_summary(table: &SvgTable) -> (report: Report)
    ensures
        report@ == summary_report(table@),
        digests_are_whole(table@, report@.lines.len() as int),
{
    let mut lines: Vec<String> = Vec::new();
    let mut i: usize = 0;
    let ghost entries = digest_entries(table@);
    loop
        invariant
            i <= declared_count(table@),
            lines@.len() == i,
            digests_are_whole(table@, i as int),
            entries == digest_entries(table@),
            gathered(entries.take(i as int)) == (ReportView {
                lines: line_views(lines@),
                error: None,
            }),
        decreases declared_count(table@) - i,
    {
        match table.stored(i) {
            None => {
                assert(entries.take(i as int) =~= entries);
                return Report { lines, error: None };
            },
            Some(Err(e)) => {
                proof {
                    lemma_gathered_step(entries, i as int);
                    lemma_gathered_stops(entries, i + 1);
                }
                return Report { lines, error: Some(e) };
            },
            Some(Ok((record, bytes))) => {
                let line = hash_document(record.start_glyph_id, record.end_glyph_id, bytes);
                proof {
                    lemma_gathered_step(entries, i as int);
                }
                lines.push(line);
            },
        }
        i += 1;
    }
}

/// The text of every document of `table`, one line for each record, in the
/// order of storage.
pub fn dump_all(table: &SvgTable) -> (report: Report)
    ensures
        report@ == dump_report(table@, GlyphToDump::All),
{
    let mut lines: Vec<String> = Vec::new();
    let mut i: usize = 0;
    let ghost entries = text_entries(table@);
    loop
        invariant
            i <= declared_count(table@),
            entries == text_entries(table@),
            gathered(entries.take(i as int)) == (ReportView {
                lines: line_views(lines@),
                error: None,
            }),
        decreases declared_count(table@) - i,
    {
        match table.stored(i) {
            None => {
                assert(entries.take(i as int) =~= entries);
                return Report { lines, error: None };
            },
            Some(Err(e)) => {
                proof {
                    lemma_gathered_step(entries, i as int);
                    lemma_gathered_stops(entries, i + 1);
                }
                return Report { lines, error: Some(e) };
            },
            Some(Ok((_, bytes))) => {
                match expand_document(bytes) {
                    Ok(line) => {
                        proof {
                            lemma_gathered_step(entries, i as int);
                        }
                        lines.push(line);
                    },
                    Err(e) => {
                        proof {
                            lemma_gathered_step(entries, i as int);
                            lemma_gathered_stops(entries, i + 1);
                        }
                        return Report { lines, error: Some(e) };
                    },
                }
            },
        }
        i += 1;
    }
}

/// The text of the document of glyph `glyph_id`: that of the first record,
/// in the order of storage, that covers the glyph. No record after it is
/// read. Where no record covers the glyph the report is empty, and no
/// failure.
pub fn dump_one(table: &SvgTable, glyph_id: u16) -> (report: Report)
    ensures
        report@ == dump_report(table@, GlyphToDump::Id(glyph_id)),
{
    match table.lookup_glyph(glyph_id) {
        Err(e) => Report::failed(e),
        Ok(None) => Report { lines: Vec::new(), error: None },
        Ok(Some((_, bytes))) => match expand_document(bytes) {
            Ok(text) => {
                let mut lines: Vec<String> = Vec::new();
                lines.push(text);
                Report { lines, error: None }
            },
            Err(e) => Report::failed(e),
        },
    }
}

/// The dump of `selection` from `table`.
pub fn dump_documents(table: &SvgTable, selection: GlyphToDump) -> (report: Report)
    ensures
        report@ == dump_report(table@, selection),
{
    match selection {
        GlyphToDump::All => dump_all(table),
        GlyphToDump::Id(glyph_id) => dump_one(table, glyph_id),
    }
}

/// The digest summary of the `SVG ` table whose bytes are `table`. A table
/// that is malformed at its header gives no line and
/// [`DumpError::TableParse`].
pub fn summarize_table(table: Vec<u8>) -> (report: Report)
    ensures
        report@ == table_summary(table@),
        digests_are_whole(table@, report@.lines.len() as int),
{
    match SvgTable::parse(table) {
        Ok(parsed) => digest_summary(&parsed),
        Err(e) => Report::failed(e),
    }
}

/// The dump of `selection` from the `SVG ` table whose bytes are `table`.
pub fn dump_table(table: Vec<u8>, selection: GlyphToDump) -> (report: Report)
    ensures
        report@ == table_dump(table@, selection),
{
    match SvgTable::parse(table) {
        Ok(parsed) => dump_documents(&parsed, selection),
        Err(e) => Report::failed(e),
    }
}

/// The digest summary of the first font of the container whose bytes are
/// `font`: a line for every record of its `SVG ` table, each with a digest
/// of 64 hexadecimal digits.
pub fn hashes(font: &[u8]) -> (report: Report)
    ensures
        report@ == font_summary(font@),
        font_table(font@, SVG_TAG, FIRST_FONT) matches Some(table) ==> digests_are_whole(
            table,
            report@.lines.len() as int,
        ),
{
    match locate_svg_table(font) {
        Ok(table) => summarize_table(table),
        Err(e) => Report::failed(e),
    }
}

/// The dump of `selection` from the font whose bytes are `font`.
pub fn dump_selected(font: &[u8], selection: GlyphToDump) -> (report: Report)
    ensures
        report@ == font_dump(font@, selection),
{
    match locate_svg_table(font) {
        Ok(table) => dump_table(table, selection),
        Err(e) => Report::failed(e),
    }
}

/// The dump that the glyph id argument `glyph_id` asks of the font whose
/// bytes are `font`: the word `all` asks for every document, a number for
/// the document of that glyph.
///
/// The argument is read first: where it cannot be read, the dump fails and
/// the font is not looked at.
pub fn dump_glyph(font: &[u8], glyph_id: &str) -> (report: Report)
    ensures
        report@ == glyph_dump(font@, glyph_id@),
{
    match GlyphToDump::parse(glyph_id) {
        Ok(selection) => dump_selected(font, selection),
        Err(e) => Report::failed(e),
    }
}

} // verus!
