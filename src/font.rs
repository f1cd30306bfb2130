use vstd::prelude::*;

use crate::error::DecodeError;
use crate::t_cmap::{cmap_error, CharacterToGlyphIndexMappingTable};
use crate::t_head::{head_error, FontHeaderTable};
use crate::t_name::{naming_error, NamingTable};
use crate::types::{Offset32, Tag};
use crate::utils::{
    be16, be32, first_error, fits, lemma_first_error_at, read_offset32, read_tag, read_uint16,
    read_uint32,
};

verus! {

/// One entry of the table directory: which table, and where it lies in the file.
#[derive(Debug, Clone, Copy, PartialEq, Eq)]
pub struct TableRecord {
    pub table_tag: Tag,
    pub checksum: u32,
    /// Offset from beginning of font file.
    pub offset: Offset32,
    pub length: u32,
}

impl TableRecord {
    /// Whether the record is the 16 bytes of `b` from `p`.
    pub open spec fn fields_at(&self, b: Seq<u8>, p: int) -> bool {
        &&& fits(b, p, 16)
        &&& self.table_tag.0@ == b.subrange(p, p + 4)
        &&& self.checksum as int == be32(b, p + 4)
        &&& self.offset as int == be32(b, p + 8)
        &&& self.length as int == be32(b, p + 12)
    }

    /// Reads the 16 bytes of a table record at `*pos`.
    pub fn from_bytes(b: &[u8], pos: &mut usize) -> (r: Result<Self, DecodeError>)
        ensures
            match r {
                Ok(tr) => tr.fields_at(b@, *old(pos) as int) && *final(pos) == *old(pos) + 16,
                Err(e) => !fits(b@, *old(pos) as int, 16) && e == DecodeError::MalformedInput,
            },
    {
        let table_tag = read_tag(b, pos)?;
        let checksum = read_uint32(b, pos)?;
        let offset = read_offset32(b, pos)?;
        let length = read_uint32(b, pos)?;
        Ok(Self { table_tag, checksum, offset, length })
    }
}

/// Where the table record `i` starts in the file.
pub open spec fn table_record_pos(i: int) -> int {
    12 + 16 * i
}

/// The number of tables that the directory of file `b` declares.
pub open spec fn declared_tables(b: Seq<u8>) -> int {
    be16(b, 4)
}

/// The failure, if any, in decoding the table directory at the start of `b`.
pub open spec fn directory_error(b: Seq<u8>) -> Option<DecodeError> {
    if b.len() < 12 || b.len() < table_record_pos(declared_tables(b)) {
        Some(DecodeError::MalformedInput)
    } else {
        None
    }
}

/// The font-level header and the list of table records.
#[derive(Debug, Clone, PartialEq, Eq)]
pub struct TableDirectory {
    pub sfnt_version: u32,
    pub num_tables: u16,
    pub search_range: u16,
    pub entry_selector: u16,
    pub range_shift: u16,
    pub table_records: Vec<TableRecord>,
}

impl TableDirectory {
    /// Whether the directory holds one record per declared table.
    pub open spec fn wf(&self) -> bool {
        self.table_records@.len() == self.num_tables
    }

    /// Whether this is the directory at the start of `b`.
    pub open spec fn decoded_from(&self, b: Seq<u8>) -> bool {
        &&& b.len() >= 12
        &&& self.sfnt_version as int == be32(b, 0)
        &&& self.num_tables as int == be16(b, 4)
        &&& self.search_range as int == be16(b, 6)
        &&& self.entry_selector as int == be16(b, 8)
        &&& self.range_shift as int == be16(b, 10)
        &&& self.wf()
        &&& forall|i: int|
            0 <= i < self.num_tables ==> (#[trigger] self.table_records@[i]).fields_at(
                b,
                table_record_pos(i),
            )
    }

    /// Decodes the header and the table records at the start of the file `b`.
    pub fn from_bytes(b: &[u8]) -> (r: Result<Self, DecodeError>)
        ensures
            match r {
                Ok(d) => directory_error(b@) is None && d.decoded_from(b@),
                Err(e) => directory_error(b@) == Some(e),
            },
    {
        let mut pos: usize = 0;
        let sfnt_version = read_uint32(b, &mut pos)?;
        let num_tables = read_uint16(b, &mut pos)?;
        let search_range = read_uint16(b, &mut pos)?;
        let entry_selector = read_uint16(b, &mut pos)?;
        let range_shift = read_uint16(b, &mut pos)?;
        let mut table_records: Vec<TableRecord> = Vec::with_capacity(num_tables as usize);
        let mut i: u16 = 0;
        while i < num_tables
            invariant
                b@.len() >= 12,
                b@.len() >= pos,
                sfnt_version as int == be32(b@, 0),
                num_tables as int == be16(b@, 4),
                search_range as int == be16(b@, 6),
                entry_selector as int == be16(b@, 8),
                range_shift as int == be16(b@, 10),
                i <= num_tables,
                pos == table_record_pos(i as int),
                table_records@.len() == i,
                forall|k: int|
                    0 <= k < i ==> (#[trigger] table_records@[k]).fields_at(
                        b@,
                        table_record_pos(k),
                    ),
            decreases num_tables - i,
        {
            let tr = TableRecord::from_bytes(b, &mut pos)?;
            table_records.push(tr);
            i += 1;
        }
        Ok(Self { sfnt_version, num_tables, search_range, entry_selector, range_shift, table_records })
    }
}

/// A decoded directory holds exactly as many records as it declares.
pub proof fn lemma_directory_holds_declared_records(b: Seq<u8>, d: TableDirectory)
    requires
        d.decoded_from(b),
    ensures
        d.table_records@.len() == d.num_tables,
{
}

/// A file whose directory declares more records than the file holds fails
/// as malformed input.
pub proof fn lemma_truncated_directory(b: Seq<u8>)
    requires
        b.len() >= 12,
        b.len() < 12 + 16 * be16(b, 4),
    ensures
        directory_error(b) == Some(DecodeError::MalformedInput),
        font_error(b) == Some(DecodeError::MalformedInput),
{
}

/// The tables that a font is decoded into; every other tag is ignored.
#[derive(Debug, Clone, Copy, PartialEq, Eq, Structural)]
pub enum TableKind {
    FontHeader,
    Naming,
    CharacterMapping,
    Ignored,
}

/// The kind of table that the tag bytes `tag` name.
pub open spec fn kind_of(tag: Seq<u8>) -> TableKind {
    if tag == seq![0x68u8, 0x65u8, 0x61u8, 0x64u8] {
        TableKind::FontHeader
    } else if tag == seq![0x6eu8, 0x61u8, 0x6du8, 0x65u8] {
        TableKind::Naming
    } else if tag == seq![0x63u8, 0x6du8, 0x61u8, 0x70u8] {
        TableKind::CharacterMapping
    } else {
        TableKind::Ignored
    }
}

impl TableKind {
    /// The kind of table that `tag` names: `head`, `name`, `cmap`, or another.
    pub fn from_tag(tag: &Tag) -> (r: TableKind)
        ensures
            r == kind_of(tag.0@),
    {
        let head: [u8; 4] = [0x68, 0x65, 0x61, 0x64];
        let name: [u8; 4] = [0x6e, 0x61, 0x6d, 0x65];
        let cmap: [u8; 4] = [0x63, 0x6d, 0x61, 0x70];
        assert(head@ =~= seq![0x68u8, 0x65u8, 0x61u8, 0x64u8]);
        assert(name@ =~= seq![0x6eu8, 0x61u8, 0x6du8, 0x65u8]);
        assert(cmap@ =~= seq![0x63u8, 0x6du8, 0x61u8, 0x70u8]);
        if tag.is(&head) {
            TableKind::FontHeader
        } else if tag.is(&name) {
            TableKind::Naming
        } else if tag.is(&cmap) {
            TableKind::CharacterMapping
        } else {
            TableKind::Ignored
        }
    }
}

/// The tag bytes of table record `i` of file `b`.
pub open spec fn record_tag(b: Seq<u8>, i: int) -> Seq<u8> {
    b.subrange(table_record_pos(i), table_record_pos(i) + 4)
}

/// The offset of table `i` of file `b`.
pub open spec fn record_offset(b: Seq<u8>, i: int) -> int {
    be32(b, table_record_pos(i) + 8)
}

/// The length of table `i` of file `b`.
pub open spec fn record_length(b: Seq<u8>, i: int) -> int {
    be32(b, table_record_pos(i) + 12)
}

/// Whether table `i` of file `b` lies within the file.
pub open spec fn record_in_file(b: Seq<u8>, i: int) -> bool {
    record_offset(b, i) + record_length(b, i) <= b.len()
}

/// The bytes of table `i` of file `b`.
pub open spec fn table_bytes(b: Seq<u8>, i: int) -> Seq<u8> {
    b.subrange(record_offset(b, i), record_offset(b, i) + record_length(b, i))
}

/// The failure, if any, in decoding table `i` of file `b` by its tag.
pub open spec fn table_error(b: Seq<u8>, i: int) -> Option<DecodeError> {
    match kind_of(record_tag(b, i)) {
        TableKind::FontHeader => head_error(table_bytes(b, i)),
        TableKind::Naming => naming_error(table_bytes(b, i)),
        TableKind::CharacterMapping => cmap_error(table_bytes(b, i)),
        TableKind::Ignored => None,
    }
}

/// The check of each table of file `b`, by record index.
pub open spec fn table_checks(b: Seq<u8>) -> spec_fn(int) -> Option<DecodeError> {
    |i: int| table_error(b, i)
}

/// Whether every table that the directory of file `b` lists lies within the file.
pub open spec fn all_in_file(b: Seq<u8>) -> bool {
    forall|i: int| 0 <= i < declared_tables(b) ==> #[trigger] record_in_file(b, i)
}

/// The first failure met in decoding file `b` as a font, if any.
pub open spec fn font_error(b: Seq<u8>) -> Option<DecodeError> {
    match directory_error(b) {
        Some(e) => Some(e),
        None => if !all_in_file(b) {
            Some(DecodeError::InvalidOffset)
        } else {
            first_error(table_checks(b), declared_tables(b) as nat)
        },
    }
}

/// The index of the last of the first `n` records of file `b` whose tag is
/// of kind `k`, or -1 if there is none.
pub open spec fn last_of_kind(b: Seq<u8>, k: TableKind, n: nat) -> int
    decreases n,
{
    if n == 0 {
        -1
    } else if kind_of(record_tag(b, n - 1)) == k {
        n - 1
    } else {
        last_of_kind(b, k, (n - 1) as nat)
    }
}

/// Every table that a decoded font lists lies within its file.
pub proof fn lemma_tables_lie_in_file(b: Seq<u8>, f: Font)
    requires
        font_error(b) is None,
        f.decoded_from(b),
    ensures
        forall|i: int|
            0 <= i < f.table_directory.table_records@.len() ==> (#[trigger] f.table_directory.table_records@[i]).offset
                + f.table_directory.table_records@[i].length <= b.len(),
{
    assert forall|i: int| 0 <= i < f.table_directory.table_records@.len() implies (#[trigger] f.table_directory.table_records@[i]).offset
        + f.table_directory.table_records@[i].length <= b.len() by {
        assert(f.table_directory.table_records@[i].fields_at(b, table_record_pos(i)));
        assert(record_in_file(b, i));
    }
}

/// A file whose directory decodes but lists a table that reaches past the
/// file's end fails with an invalid offset.
pub proof fn lemma_table_past_end_fails(b: Seq<u8>, i: int)
    requires
        directory_error(b) is None,
        0 <= i < declared_tables(b),
        record_offset(b, i) + record_length(b, i) > b.len(),
    ensures
        font_error(b) == Some(DecodeError::InvalidOffset),
{
    assert(!record_in_file(b, i));
}

/// A decoded font: its directory, and each recognized table that it lists.
#[derive(Debug, Clone, PartialEq, Eq)]
pub struct Font {
    pub table_directory: TableDirectory,
    pub t_name: Option<NamingTable>,
    pub t_cmap: Option<CharacterToGlyphIndexMappingTable>,
    pub t_head: Option<FontHeaderTable>,
}

impl Font {
    /// Whether the tables decoded from the first `n` records of file `b` are
    /// those held, the last record of each kind winning.
    pub open spec fn tables_from(
        b: Seq<u8>,
        n: nat,
        t_name: Option<NamingTable>,
        t_cmap: Option<CharacterToGlyphIndexMappingTable>,
        t_head: Option<FontHeaderTable>,
    ) -> bool {
        let ln = last_of_kind(b, TableKind::Naming, n);
        let lc = last_of_kind(b, TableKind::CharacterMapping, n);
        let lh = last_of_kind(b, TableKind::FontHeader, n);
        &&& (ln < 0 ==> t_name is None)
        &&& (ln >= 0 ==> t_name is Some && t_name.unwrap().decoded_from(table_bytes(b, ln)))
        &&& (lc < 0 ==> t_cmap is None)
        &&& (lc >= 0 ==> t_cmap is Some && t_cmap.unwrap().decoded_from(table_bytes(b, lc)))
        &&& (lh < 0 ==> t_head is None)
        &&& (lh >= 0 ==> t_head is Some && t_head.unwrap().decoded_from(table_bytes(b, lh)))
    }

    /// Whether this is what file `b` holds.
    pub open spec fn decoded_from(&self, b: Seq<u8>) -> bool {
        &&& self.table_directory.decoded_from(b)
        &&& Self::tables_from(
            b,
            self.table_directory.num_tables as nat,
            self.t_name,
            self.t_cmap,
            self.t_head,
        )
    }

    /// Decodes the whole font file `b`: its directory, then each `head`,
    /// `name` and `cmap` table that the directory lists.
    pub fn from_bytes(b: &[u8]) -> (r: Result<Self, DecodeError>)
        ensures
            match r {
                Ok(f) => font_error(b@) is None && f.decoded_from(b@),
                Err(e) => font_error(b@) == Some(e),
            },
    {
        let table_directory = TableDirectory::from_bytes(b)?;
        let n = table_directory.table_records.len();
        let file_len = b.len();
        let mut i: usize = 0;
        while i < n
            invariant
                table_directory.decoded_from(b@),
                directory_error(b@) is None,
                n == table_directory.num_tables,
                file_len == b@.len(),
                i <= n,
                forall|k: int| 0 <= k < i ==> #[trigger] record_in_file(b@, k),
            decreases n - i,
        {
            let tr = table_directory.table_records[i];
            assert(tr.fields_at(b@, table_record_pos(i as int)));
            if tr.offset as u64 + tr.length as u64 > file_len as u64 {
                assert(!record_in_file(b@, i as int));
                return Err(DecodeError::InvalidOffset);
            }
            i += 1;
        }
        let ghost checks = table_checks(b@);
        let mut t_name: Option<NamingTable> = None;
        let mut t_cmap: Option<CharacterToGlyphIndexMappingTable> = None;
        let mut t_head: Option<FontHeaderTable> = None;
        let mut i: usize = 0;
        while i < n
            invariant
                table_directory.decoded_from(b@),
                directory_error(b@) is None,
                n == table_directory.num_tables,
                file_len == b@.len(),
                all_in_file(b@),
                checks == table_checks(b@),
                i <= n,
                first_error(checks, i as nat) is None,
                Self::tables_from(b@, i as nat, t_name, t_cmap, t_head),
            decreases n - i,
        {
            let tr = table_directory.table_records[i];
            assert(tr.fields_at(b@, table_record_pos(i as int)));
            assert(record_in_file(b@, i as int));
            let start = tr.offset as usize;
            let end = start + tr.length as usize;
            let kind = TableKind::from_tag(&tr.table_tag);
            match kind {
                TableKind::Naming => {
                    match NamingTable::from_bytes(&b[start..end]) {
                        Ok(t) => t_name = Some(t),
                        Err(e) => {
                            proof {
                                lemma_first_error_at(checks, i as nat, n as nat);
                            }
                            return Err(e);
                        },
                    }
                },
                TableKind::CharacterMapping => {
                    match CharacterToGlyphIndexMappingTable::from_bytes(&b[start..end]) {
                        Ok(t) => t_cmap = Some(t),
                        Err(e) => {
                            proof {
                                lemma_first_error_at(checks, i as nat, n as nat);
                            }
                            return Err(e);
                        },
                    }
                },
                TableKind::FontHeader => {
                    match FontHeaderTable::from_bytes(&b[start..end]) {
                        Ok(t) => t_head = Some(t),
                        Err(e) => {
                            proof {
                                lemma_first_error_at(checks, i as nat, n as nat);
                            }
                            return Err(e);
                        },
                    }
                },
                TableKind::Ignored => {},
            }
            i += 1;
        }
        Ok(Self { table_directory, t_name, t_cmap, t_head })
    }
}

} // verus!
