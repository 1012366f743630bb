use std::io::Write;

use flate2::write::GzEncoder;
use flate2::Compression;
use svg_dump::dump::{dump_glyph, dump_selected, hashes};
use svg_dump::error::DumpError;
use svg_dump::font::{locate_svg_table, table_or_failure, SVG_TAG};
use svg_dump::glyph::GlyphToDump;

fn table_bytes(documents: &[(u16, u16, &[u8])]) -> Vec<u8> {
    let mut table = vec![0, 0, 0, 0, 0, 10, 0, 0, 0, 0];
    table.extend_from_slice(&(documents.len() as u16).to_be_bytes());
    let mut offset = 2 + 12 * documents.len() as u32;
    for (start, end, document) in documents {
        table.extend_from_slice(&start.to_be_bytes());
        table.extend_from_slice(&end.to_be_bytes());
        table.extend_from_slice(&offset.to_be_bytes());
        table.extend_from_slice(&(document.len() as u32).to_be_bytes());
        offset += document.len() as u32;
    }
    for (_, _, document) in documents {
        table.extend_from_slice(document);
    }
    table
}

/// An OpenType font that holds the given tables, each at a multiple of four.
fn font_of(tables: &[(&[u8; 4], &[u8])]) -> Vec<u8> {
    let mut font = vec![0, 1, 0, 0];
    font.extend_from_slice(&(tables.len() as u16).to_be_bytes());
    font.extend_from_slice(&[0, 16, 0, 0, 0, 0]);
    let mut offset = 12 + 16 * tables.len();
    for (tag, data) in tables {
        font.extend_from_slice(&tag[..]);
        font.extend_from_slice(&[0, 0, 0, 0]);
        font.extend_from_slice(&(offset as u32).to_be_bytes());
        font.extend_from_slice(&(data.len() as u32).to_be_bytes());
        offset += (data.len() + 3) / 4 * 4;
    }
    for (_, data) in tables {
        font.extend_from_slice(data);
        while font.len() % 4 != 0 {
            font.push(0);
        }
    }
    font
}

fn font_with_one_document() -> Vec<u8> {
    font_of(&[(b"SVG ", &table_bytes(&[(10, 12, b"<svg/>")]))])
}

#[test]
fn the_tag_spells_svg_and_a_space() {
    assert_eq!(SVG_TAG.to_be_bytes(), *b"SVG ");
}

#[test]
fn locate_gives_the_table_as_stored() {
    let table = table_bytes(&[(10, 12, b"<svg/>")]);
    let font = font_of(&[(b"SVG ", &table)]);
    assert_ne!(font, table);
    assert_eq!(locate_svg_table(&font), Ok(table));
}

#[test]
fn locate_finds_the_table_among_others() {
    let table = table_bytes(&[(1, 2, b"<svg id=\"a\"/>"), (3, 3, b"<g/>")]);
    let font = font_of(&[(b"OS/2", &[1, 2, 3, 4, 5]), (b"SVG ", &table), (b"name", &[9; 7])]);
    assert_eq!(locate_svg_table(&font), Ok(table));
}

#[test]
fn locate_in_a_collection_takes_the_first_font() {
    let table = table_bytes(&[(10, 12, b"<svg/>")]);
    let mut font = Vec::new();
    font.extend_from_slice(b"ttcf");
    font.extend_from_slice(&[0, 1, 0, 0, 0, 0, 0, 1, 0, 0, 0, 16]);
    font.extend_from_slice(&[0, 1, 0, 0, 0, 1, 0, 16, 0, 0, 0, 0]);
    font.extend_from_slice(b"SVG ");
    font.extend_from_slice(&[0, 0, 0, 0, 0, 0, 0, 44]);
    font.extend_from_slice(&(table.len() as u32).to_be_bytes());
    font.extend_from_slice(&table);
    assert_eq!(locate_svg_table(&font), Ok(table));
}

#[test]
fn a_font_without_the_table_is_a_container_failure() {
    let font = font_of(&[(b"OS/2", &[1, 2, 3, 4]), (b"svg ", &[0; 12]), (b"SVG\0", &[0; 12])]);
    assert_eq!(locate_svg_table(&font), Err(DumpError::ContainerParse));
    assert_eq!(locate_svg_table(&font_of(&[])), Err(DumpError::ContainerParse));
}

#[test]
fn bytes_that_are_no_font_are_a_container_failure() {
    assert_eq!(locate_svg_table(&[]), Err(DumpError::ContainerParse));
    assert_eq!(locate_svg_table(b"<svg/>"), Err(DumpError::ContainerParse));
    assert_eq!(locate_svg_table(&[0, 1, 0, 0]), Err(DumpError::ContainerParse));
    assert_eq!(
        locate_svg_table(&[0, 1, 0, 0, 0, 3, 0, 0, 0, 0, 0, 0]),
        Err(DumpError::ContainerParse)
    );
    let table = table_bytes(&[(10, 12, b"<svg/>")]);
    assert_eq!(locate_svg_table(&table), Err(DumpError::ContainerParse));
}

#[test]
fn a_table_that_runs_past_the_font_is_a_container_failure() {
    let mut font = font_with_one_document();
    font.truncate(font.len() - 4);
    assert_eq!(locate_svg_table(&font), Err(DumpError::ContainerParse));
}

#[test]
fn table_or_failure_maps_each_outcome() {
    assert_eq!(table_or_failure(Some(vec![1, 2, 3])), Ok(vec![1, 2, 3]));
    assert_eq!(table_or_failure(Some(vec![])), Ok(vec![]));
    assert_eq!(table_or_failure(None), Err(DumpError::ContainerParse));
}

#[test]
fn hashes_of_a_font_with_one_document() {
    let report = hashes(&font_with_one_document());
    assert_eq!(
        report.lines,
        vec![String::from(
            "10 \u{2192} 12: d4dc56669143034f31aa309635d4113d9ad76a02b1739da22c965ed2049be9e6"
        )]
    );
    assert_eq!(report.error, None);
}

#[test]
fn hashes_twice_gives_the_same_lines() {
    let font = font_of(&[(
        b"SVG ",
        &table_bytes(&[(1, 2, b"<svg id=\"a\"/>"), (3, 3, b"<g/>"), (9, 9, b"<svg id=\"a\"/>")]),
    )]);
    let first = hashes(&font);
    let second = hashes(&font);
    assert_eq!(first.lines.len(), 3);
    assert_eq!(first.lines, second.lines);
    assert_eq!(first.error, second.error);
    assert_eq!(first.lines[0][8..], first.lines[2][8..]);
    assert_ne!(first.lines[0][8..], first.lines[1][8..]);
}

#[test]
fn hashes_of_bytes_that_are_no_font_fails() {
    let report = hashes(b"not a font");
    assert!(report.lines.is_empty());
    assert_eq!(report.error, Some(DumpError::ContainerParse));
}

#[test]
fn hashes_of_a_font_with_a_malformed_table_fails() {
    let report = hashes(&font_of(&[(b"SVG ", &[0, 0, 0, 0, 0, 99, 0, 0, 0, 0, 0, 0])]));
    assert!(report.lines.is_empty());
    assert_eq!(report.error, Some(DumpError::TableParse));
    let report = hashes(&font_of(&[(b"SVG ", &[0, 0, 0])]));
    assert_eq!(report.error, Some(DumpError::TableParse));
}

#[test]
fn dump_glyph_inside_the_range_prints_the_document() {
    let report = dump_glyph(&font_with_one_document(), "11");
    assert_eq!(report.lines, vec![String::from("<svg/>")]);
    assert_eq!(report.error, None);
}

#[test]
fn dump_glyph_outside_the_range_prints_nothing() {
    let report = dump_glyph(&font_with_one_document(), "5");
    assert!(report.lines.is_empty());
    assert_eq!(report.error, None);
    assert!(report.succeeded());
}

#[test]
fn dump_glyph_all_prints_every_document() {
    let mut encoder = GzEncoder::new(Vec::new(), Compression::default());
    encoder.write_all(b"<svg id=\"z\"/>").unwrap();
    let zipped = encoder.finish().unwrap();
    let font = font_of(&[
        (b"head", &[0; 54]),
        (b"SVG ", &table_bytes(&[(7, 9, &zipped), (1, 2, b"<svg id=\"a\"/>")])),
    ]);
    let report = dump_glyph(&font, "all");
    assert_eq!(
        report.lines,
        vec![String::from("<svg id=\"z\"/>"), String::from("<svg id=\"a\"/>")]
    );
    assert_eq!(report.error, None);
    let report = dump_selected(&font, GlyphToDump::Id(8));
    assert_eq!(report.lines, vec![String::from("<svg id=\"z\"/>")]);
    assert_eq!(report.error, None);
}

#[test]
fn dump_glyph_reads_the_argument_before_the_font() {
    for glyph_id in ["", "x", "-1", "65536", "ALL"] {
        let report = dump_glyph(b"not a font", glyph_id);
        assert!(report.lines.is_empty());
        assert_eq!(report.error, Some(DumpError::Input));
        let report = dump_glyph(&font_with_one_document(), glyph_id);
        assert!(report.lines.is_empty());
        assert_eq!(report.error, Some(DumpError::Input));
    }
}

#[test]
fn dump_glyph_of_bytes_that_are_no_font_fails() {
    for glyph_id in ["all", "11"] {
        let report = dump_glyph(b"not a font", glyph_id);
        assert!(report.lines.is_empty());
        assert_eq!(report.error, Some(DumpError::ContainerParse));
    }
}

#[test]
fn dump_selected_of_a_font_with_a_malformed_table_fails() {
    let font = font_of(&[(b"SVG ", &[0, 0, 0, 0, 0, 11, 0, 0, 0, 0, 0, 0])]);
    for selection in [GlyphToDump::All, GlyphToDump::Id(0)] {
        let report = dump_selected(&font, selection);
        assert!(report.lines.is_empty());
        assert_eq!(report.error, Some(DumpError::TableParse));
    }
}
