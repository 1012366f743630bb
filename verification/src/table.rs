//! The `SVG ` table: a short header, a list of fixed-size document records,
//! and the documents themselves.
//!
//! The header has ten bytes: a 16-bit version, which must be zero, the
//! 32-bit offset of the document list, and a reserved field of 32 bits,
//! which must be there and whose value is not looked at. The list starts
//! with a 16-bit count, followed by that many records of twelve bytes: first
//! and last glyph id (16 bits each), then the offset and the length of the
//! document (32 bits each). The offset of a document is counted from the
//! start of the list. All integers are big-endian.

use vstd::prelude::*;
use vstd::slice::slice_subrange;
use crate::bytes::{be16, be32, read_be16, read_be32};
use crate::error::DumpError;

verus! {

/// The number of bytes of the header: version, offset of the document list,
/// and the reserved field.
pub const HEADER_SIZE: usize = 10;

/// The number of bytes of one document record.
pub const RECORD_SIZE: usize = 12;

/// One entry of the document list: a closed range of glyph ids, and where
/// the document for those glyphs lies, counted from the start of the list.
///
/// Several records may point at the same document.
#[derive(Clone, Copy, Debug, PartialEq, Eq, Structural)]
pub struct DocumentRecord {
    /// The first glyph id of the range.
    pub start_glyph_id: u16,
    /// The last glyph id of the range.
    pub end_glyph_id: u16,
    /// Where the document starts, counted from the start of the list.
    pub document_offset: u32,
    /// The number of bytes of the document.
    pub document_length: u32,
}

impl DocumentRecord {
    /// Whether `glyph_id` lies in the closed range of this record.
    pub open spec fn covers(self, glyph_id: u16) -> bool {
        self.start_glyph_id <= glyph_id <= self.end_glyph_id
    }

    /// Whether `glyph_id` lies in the closed range of this record.
    pub fn contains(&self, glyph_id: u16) -> (found: bool)
        ensures
            found == self.covers(glyph_id),
    {
        self.start_glyph_id <= glyph_id && glyph_id <= self.end_glyph_id
    }
}

/// The offset of the document list that the header of `table` declares.
pub open spec fn list_offset(table: Seq<u8>) -> int {
    be32(table, 2)
}

/// The number of records that the document list of `table` declares.
pub open spec fn declared_count(table: Seq<u8>) -> int {
    be16(table, list_offset(table))
}

/// Whether the header and the whole record list of `table` can be read: the
/// table holds the ten bytes of the header, the version is zero, and the
/// offset of the list, its count and all the records that it counts lie
/// inside the table.
pub open spec fn well_formed_header(table: Seq<u8>) -> bool {
    &&& table.len() >= HEADER_SIZE
    &&& be16(table, 0) == 0
    &&& list_offset(table) + 2 <= table.len()
    &&& list_offset(table) + 2 + RECORD_SIZE * declared_count(table) <= table.len()
}

/// Where record `index` of `table` starts.
pub open spec fn record_position(table: Seq<u8>, index: int) -> int {
    list_offset(table) + 2 + RECORD_SIZE * index
}

/// Record `index` of `table`, as its twelve bytes say.
pub open spec fn raw_record(table: Seq<u8>, index: int) -> DocumentRecord {
    let at = record_position(table, index);
    DocumentRecord {
        start_glyph_id: be16(table, at) as u16,
        end_glyph_id: be16(table, at + 2) as u16,
        document_offset: be32(table, at + 4) as u32,
        document_length: be32(table, at + 8) as u32,
    }
}

/// The index in `table` of the first byte of the document of `record`. An
/// empty document takes no bytes, wherever its offset points: it counts as
/// the empty document at the start of the table.
pub open spec fn document_start(table: Seq<u8>, record: DocumentRecord) -> int {
    if record.document_length == 0 {
        0
    } else {
        list_offset(table) + record.document_offset
    }
}

/// The index in `table` of the byte after the last byte of the document of
/// `record`.
pub open spec fn document_end(table: Seq<u8>, record: DocumentRecord) -> int {
    document_start(table, record) + record.document_length
}

/// Whether the document of `record` lies inside `table`.
pub open spec fn document_fits(table: Seq<u8>, record: DocumentRecord) -> bool {
    document_end(table, record) <= table.len()
}

/// The bytes of the document of `record`, as stored in `table`.
pub open spec fn document_bytes(table: Seq<u8>, record: DocumentRecord) -> Seq<u8> {
    table.subrange(document_start(table, record), document_end(table, record))
}

/// What reading record `index` of `table` gives: the record, or a failure
/// where its document does not lie inside the table.
pub open spec fn record_at(table: Seq<u8>, index: int) -> Result<DocumentRecord, DumpError> {
    if document_fits(table, raw_record(table, index)) {
        Ok(raw_record(table, index))
    } else {
        Err(DumpError::TableParse)
    }
}

/// Whether `table` can be read from end to end: its header and record list
/// are well formed, and the document of every record lies inside the table.
pub open spec fn well_formed_table(table: Seq<u8>) -> bool {
    &&& well_formed_header(table)
    &&& forall|i: int|
        0 <= i < declared_count(table) ==> document_fits(table, #[trigger] raw_record(table, i))
}

/// In a table that can be read from end to end, every record is read
/// without failure, and its document is a part of the table.
pub proof fn lemma_documents_lie_inside(table: Seq<u8>, index: int)
    requires
        well_formed_table(table),
        0 <= index < declared_count(table),
    ensures
        record_at(table, index) == Ok::<DocumentRecord, DumpError>(raw_record(table, index)),
        0 <= document_start(table, raw_record(table, index)) <= document_end(
            table,
            raw_record(table, index),
        ) <= table.len(),
        document_bytes(table, raw_record(table, index)).len() == raw_record(
            table,
            index,
        ).document_length,
{
}

/// The first record of `table`, from record `from` on, that covers
/// `glyph_id`. The records are read in the order of storage, and the search
/// fails at the first one whose document does not lie inside the table, if
/// no record before it covers the glyph.
pub open spec fn first_covering(table: Seq<u8>, glyph_id: u16, from: int) -> Result<
    Option<DocumentRecord>,
    DumpError,
>
    decreases declared_count(table) - from,
{
    if from >= declared_count(table) {
        Ok(None)
    } else {
        match record_at(table, from) {
            Err(e) => Err(e),
            Ok(record) => if record.covers(glyph_id) {
                Ok(Some(record))
            } else {
                first_covering(table, glyph_id, from + 1)
            },
        }
    }
}

/// An `SVG ` table whose header and record list have been checked.
///
/// The table owns its bytes. Records are read from them on demand, in the
/// order in which they are stored, and a record holds the place of its
/// document, not the document.
#[derive(Debug)]
pub struct SvgTable {
    data: Vec<u8>,
    list_at: usize,
    count: u16,
}

impl View for SvgTable {
    type V = Seq<u8>;

    /// The bytes of the table.
    closed spec fn view(&self) -> Seq<u8> {
        self.data@
    }
}

impl SvgTable {
    #[verifier::type_invariant]
    spec fn checked(self) -> bool {
        &&& well_formed_header(self.data@)
        &&& self.list_at == list_offset(self.data@)
        &&& self.count == declared_count(self.data@)
    }

    /// Checks the header and the extent of the record list of `data`.
    ///
    /// The documents themselves are checked record by record, when a record
    /// is read.
    pub fn parse(data: Vec<u8>) -> (parsed: Result<SvgTable, DumpError>)
        ensures
            parsed is Ok <==> well_formed_header(data@),
            parsed matches Ok(table) ==> table@ == data@,
            parsed matches Err(e) ==> e == DumpError::TableParse,
            data@.len() < HEADER_SIZE || list_offset(data@) + 2 > data@.len() ==> parsed == Err::<
                SvgTable,
                DumpError,
            >(DumpError::TableParse),
    {
        let len = data.len();
        if len < HEADER_SIZE {
            return Err(DumpError::TableParse);
        }
        let version = read_be16(data.as_slice(), 0);
        if version != 0 {
            return Err(DumpError::TableParse);
        }
        let offset = read_be32(data.as_slice(), 2);
        if offset as u64 + 2 > len as u64 {
            return Err(DumpError::TableParse);
        }
        let list_at = offset as usize;
        let count = read_be16(data.as_slice(), list_at);
        if (count as usize) * RECORD_SIZE > len - list_at - 2 {
            return Err(DumpError::TableParse);
        }
        Ok(SvgTable { data, list_at, count })
    }

    /// The number of records that the table declares.
    pub fn len(&self) -> (count: usize)
        ensures
            count == declared_count(self@),
            well_formed_header(self@),
    {
        proof {
            use_type_invariant(self);
        }
        self.count as usize
    }

    /// Reads record `index`, counted from zero in the order of storage.
    ///
    /// Returns `None` where the table has no such record, and a failure
    /// where the document of the record does not lie inside the table.
    pub fn record(&self, index: usize) -> (read: Option<Result<DocumentRecord, DumpError>>)
        ensures
            read is Some <==> index < declared_count(self@),
            read matches Some(r) ==> r == record_at(self@, index as int),
    {
        proof {
            use_type_invariant(self);
        }
        if index >= self.count as usize {
            return None;
        }
        let bytes = self.data.as_slice();
        assert(bytes@.len() == bytes.len());
        let at = self.list_at + 2 + RECORD_SIZE * index;
        let record = DocumentRecord {
            start_glyph_id: read_be16(bytes, at),
            end_glyph_id: read_be16(bytes, at + 2),
            document_offset: read_be32(bytes, at + 4),
            document_length: read_be32(bytes, at + 8),
        };
        if self.holds(&record) {
            Some(Ok(record))
        } else {
            Some(Err(DumpError::TableParse))
        }
    }

    /// Reads record `index` together with the stored bytes of its document.
    ///
    /// Returns `None` where the table has no such record, and a failure
    /// where the document of the record does not lie inside the table.
    pub fn stored(&self, index: usize) -> (read: Option<
        Result<(DocumentRecord, &[u8]), DumpError>,
    >)
        ensures
            read is Some <==> index < declared_count(self@),
            read matches Some(Ok(pair)) ==> record_at(self@, index as int) == Ok::<
                DocumentRecord,
                DumpError,
            >(pair.0) && pair.1@ == document_bytes(self@, pair.0),
            read matches Some(Err(e)) ==> record_at(self@, index as int) == Err::<
                DocumentRecord,
                DumpError,
            >(e),
    {
        match self.record(index) {
            None => None,
            Some(Err(e)) => Some(Err(e)),
            Some(Ok(record)) => match self.document(&record) {
                Some(bytes) => Some(Ok((record, bytes))),
                None => Some(Err(DumpError::TableParse)),
            },
        }
    }

    /// Reads all the records, in the order of storage.
    ///
    /// Succeeds exactly where every document lies inside the table; there
    /// are then as many records as the list declares.
    pub fn records(&self) -> (all: Result<Vec<DocumentRecord>, DumpError>)
        ensures
            all is Ok <==> well_formed_table(self@),
            all matches Ok(records) ==> {
                &&& records@.len() == declared_count(self@)
                &&& forall|i: int|
                    0 <= i < records@.len() ==> #[trigger] records@[i] == raw_record(self@, i)
                        && 0 <= document_start(self@, records@[i]) <= document_end(
                        self@,
                        records@[i],
                    ) <= self@.len()
            },
            all matches Err(e) ==> e == DumpError::TableParse,
    {
        let count = self.len();
        let mut records: Vec<DocumentRecord> = Vec::new();
        let mut i: usize = 0;
        while i < count
            invariant
                i <= count == declared_count(self@),
                records@.len() == i,
                forall|k: int|
                    0 <= k < i ==> #[trigger] records@[k] == raw_record(self@, k) && document_fits(
                        self@,
                        records@[k],
                    ),
            decreases count - i,
        {
            match self.record(i) {
                Some(Ok(record)) => {
                    records.push(record);
                },
                _ => {
                    return Err(DumpError::TableParse);
                },
            }
            i += 1;
        }
        proof {
            use_type_invariant(self);
            assert forall|k: int| 0 <= k < declared_count(self@) implies document_fits(
                self@,
                #[trigger] raw_record(self@, k),
            ) by {
                assert(records@[k] == raw_record(self@, k));
            }
        }
        Ok(records)
    }

    /// The first record, in the order of storage, that covers `glyph_id`,
    /// with the stored bytes of its document; `None` where no record covers
    /// it.
    ///
    /// Fails where a record that has to be read on the way points outside
    /// the table.
    pub fn lookup_glyph(&self, glyph_id: u16) -> (found: Result<
        Option<(DocumentRecord, &[u8])>,
        DumpError,
    >)
        ensures
            match found {
                Ok(Some(pair)) => first_covering(self@, glyph_id, 0) == Ok::<
                    Option<DocumentRecord>,
                    DumpError,
                >(Some(pair.0)) && pair.1@ == document_bytes(self@, pair.0),
                Ok(None) => first_covering(self@, glyph_id, 0) == Ok::<
                    Option<DocumentRecord>,
                    DumpError,
                >(None),
                Err(e) => first_covering(self@, glyph_id, 0) == Err::<
                    Option<DocumentRecord>,
                    DumpError,
                >(e),
            },
    {
        let mut i: usize = 0;
        loop
            invariant
                i <= declared_count(self@),
                first_covering(self@, glyph_id, 0) == first_covering(self@, glyph_id, i as int),
            decreases declared_count(self@) - i,
        {
            match self.stored(i) {
                None => {
                    return Ok(None);
                },
                Some(Err(e)) => {
                    return Err(e);
                },
                Some(Ok((record, bytes))) => {
                    if record.contains(glyph_id) {
                        return Ok(Some((record, bytes)));
                    }
                },
            }
            i += 1;
        }
    }

    /// Whether the document of `record` lies inside this table.
    pub fn holds(&self, record: &DocumentRecord) -> (inside: bool)
        ensures
            inside == document_fits(self@, *record),
    {
        proof {
            use_type_invariant(self);
        }
        record.document_length == 0 || self.list_at as u64 + record.document_offset as u64
            + record.document_length as u64 <= self.data.len() as u64
    }

    /// The stored bytes of the document of `record`, or `None` where they do
    /// not lie inside this table.
    pub fn document(&self, record: &DocumentRecord) -> (stored: Option<&[u8]>)
        ensures
            stored is Some <==> document_fits(self@, *record),
            stored matches Some(bytes) ==> bytes@ == document_bytes(self@, *record),
    {
        proof {
            use_type_invariant(self);
        }
        if !self.holds(record) {
            return None;
        }
        let bytes = self.data.as_slice();
        assert(bytes@.len() == bytes.len());
        let start: usize = if record.document_length == 0 {
            0
        } else {
            self.list_at + record.document_offset as usize
        };
        Some(slice_subrange(bytes, start, start + record.document_length as usize))
    }
}

} // verus!
