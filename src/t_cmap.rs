use vstd::prelude::*;

use crate::error::DecodeError;
use crate::types::Offset32;
use crate::utils::{be16, be32, first_error, fits, lemma_first_error_at, read_offset32, read_uint16};

verus! {

/// The description of a character-mapping subtable format.
pub open spec fn format_desc(format: u16) -> Seq<char> {
    match format {
        0 => "Byte encoding table"@,
        2 => "High byte mapping through table"@,
        4 => "Segment mapping to delta values"@,
        6 => "Trimmed table mapping"@,
        8 => "mixed 16-bit and 32-bit coverage"@,
        10 => "Trimmed array"@,
        12 => "Segmented coverage"@,
        13 => "Many-to-one range mappings"@,
        14 => "Unicode variation sequences"@,
        _ => "error format"@,
    }
}

/// A character-to-glyph mapping subtable; only its format is decoded.
#[derive(Debug, Clone, Copy, PartialEq, Eq, Structural)]
pub struct SubTable {
    pub format: u16,
}

impl SubTable {
    /// Reads the format at the start of `b`, where the subtable begins.
    pub fn from_bytes(b: &[u8]) -> (r: Result<Self, DecodeError>)
        ensures
            match r {
                Ok(st) => fits(b@, 0, 2) && st.format as int == be16(b@, 0),
                Err(e) => !fits(b@, 0, 2) && e == DecodeError::MalformedInput,
            },
    {
        let mut pos: usize = 0;
        let format = read_uint16(b, &mut pos)?;
        Ok(Self { format })
    }

    /// Describes a subtable format; unknown formats get "error format".
    pub fn get_format_desc(format: u16) -> (r: &'static str)
        ensures
            r@ == format_desc(format),
    {
        match format {
            0 => "Byte encoding table",
            2 => "High byte mapping through table",
            4 => "Segment mapping to delta values",
            6 => "Trimmed table mapping",
            8 => "mixed 16-bit and 32-bit coverage",
            10 => "Trimmed array",
            12 => "Segmented coverage",
            13 => "Many-to-one range mappings",
            14 => "Unicode variation sequences",
            _ => "error format",
        }
    }
}

/// The leading fields of a format 4 subtable. Subtable bodies are not decoded.
#[derive(Debug, Clone, Copy, PartialEq, Eq, Structural)]
pub struct SubTable4 {
    pub length: u16,
    pub language: u16,
}

/// One encoding of the character-mapping table and the subtable it uses.
#[derive(Debug, Clone, Copy, PartialEq, Eq)]
pub struct EncodingRecord {
    pub platform_id: u16,
    pub encoding_id: u16,
    /// Byte offset from beginning of table to the subtable for this encoding.
    pub subtable_offset: Offset32,
    /// The subtable, once it has been read.
    pub sub_table: Option<SubTable>,
}

impl EncodingRecord {
    /// Whether the fixed fields are the 8 bytes of `b` from `p`.
    pub open spec fn fields_at(&self, b: Seq<u8>, p: int) -> bool {
        &&& fits(b, p, 8)
        &&& self.platform_id as int == be16(b, p)
        &&& self.encoding_id as int == be16(b, p + 2)
        &&& self.subtable_offset as int == be32(b, p + 4)
    }

    /// Whether `sub_table` holds the format found at the subtable's offset in table `b`.
    pub open spec fn resolved_in(&self, b: Seq<u8>) -> bool {
        &&& fits(b, self.subtable_offset as int, 2)
        &&& self.sub_table == Some(
            SubTable { format: be16(b, self.subtable_offset as int) as u16 },
        )
    }

    /// Reads the 8 bytes of an encoding record at `*pos`; its subtable is left unread.
    pub fn from_bytes(b: &[u8], pos: &mut usize) -> (r: Result<Self, DecodeError>)
        ensures
            match r {
                Ok(er) => {
                    &&& er.fields_at(b@, *old(pos) as int)
                    &&& er.sub_table is None
                    &&& *final(pos) == *old(pos) + 8
                },
                Err(e) => !fits(b@, *old(pos) as int, 8) && e == DecodeError::MalformedInput,
            },
    {
        let platform_id = read_uint16(b, pos)?;
        let encoding_id = read_uint16(b, pos)?;
        let subtable_offset = read_offset32(b, pos)?;
        Ok(Self { platform_id, encoding_id, subtable_offset, sub_table: None })
    }
}

/// Where the encoding record `i` starts.
pub open spec fn encoding_record_pos(i: int) -> int {
    4 + 8 * i
}

/// The failure, if any, of encoding record `i` of table `b`, its subtable's format included.
pub open spec fn encoding_record_error(b: Seq<u8>, i: int) -> Option<DecodeError> {
    let p = encoding_record_pos(i);
    if !fits(b, p, 8) {
        Some(DecodeError::MalformedInput)
    } else if be32(b, p + 4) > b.len() {
        Some(DecodeError::InvalidOffset)
    } else if !fits(b, be32(b, p + 4), 2) {
        Some(DecodeError::MalformedInput)
    } else {
        None
    }
}

/// The check of each encoding record of table `b`, by index.
pub open spec fn encoding_record_checks(b: Seq<u8>) -> spec_fn(int) -> Option<DecodeError> {
    |i: int| encoding_record_error(b, i)
}

/// The first failure met in decoding `b` as a character-mapping table, if any.
pub open spec fn cmap_error(b: Seq<u8>) -> Option<DecodeError> {
    if b.len() < 4 {
        Some(DecodeError::MalformedInput)
    } else {
        first_error(encoding_record_checks(b), be16(b, 2) as nat)
    }
}

/// The character-to-glyph-index mapping table (`cmap`).
#[derive(Debug, Clone, PartialEq, Eq)]
pub struct CharacterToGlyphIndexMappingTable {
    pub version: u16,
    pub num_tables: u16,
    pub encoding_records: Vec<EncodingRecord>,
}

impl CharacterToGlyphIndexMappingTable {
    /// Whether this is what table `b` holds, every subtable's format read.
    pub open spec fn decoded_from(&self, b: Seq<u8>) -> bool {
        &&& b.len() >= 4
        &&& self.version as int == be16(b, 0)
        &&& self.num_tables as int == be16(b, 2)
        &&& self.encoding_records@.len() == self.num_tables
        &&& forall|i: int|
            0 <= i < self.num_tables ==> {
                &&& (#[trigger] self.encoding_records@[i]).fields_at(b, encoding_record_pos(i))
                &&& self.encoding_records@[i].resolved_in(b)
            }
    }

    /// Decodes the character-mapping table `b` and the format of each subtable.
    pub fn from_bytes(b: &[u8]) -> (r: Result<Self, DecodeError>)
        ensures
            match r {
                Ok(t) => cmap_error(b@) is None && t.decoded_from(b@),
                Err(e) => cmap_error(b@) == Some(e),
            },
    {
        let mut pos: usize = 0;
        let version = read_uint16(b, &mut pos)?;
        let num_tables = read_uint16(b, &mut pos)?;
        let ghost checks = encoding_record_checks(b@);
        let mut encoding_records: Vec<EncodingRecord> = Vec::with_capacity(num_tables as usize);
        let mut i: u16 = 0;
        while i < num_tables
            invariant
                b@.len() >= 4,
                version as int == be16(b@, 0),
                num_tables as int == be16(b@, 2),
                checks == encoding_record_checks(b@),
                i <= num_tables,
                pos == encoding_record_pos(i as int),
                first_error(checks, i as nat) is None,
                encoding_records@.len() == i,
                forall|k: int|
                    0 <= k < i ==> {
                        &&& (#[trigger] encoding_records@[k]).fields_at(
                            b@,
                            encoding_record_pos(k),
                        )
                        &&& encoding_records@[k].resolved_in(b@)
                    },
            decreases num_tables - i,
        {
            let mut er = match EncodingRecord::from_bytes(b, &mut pos) {
                Ok(er) => er,
                Err(e) => {
                    proof {
                        lemma_first_error_at(checks, i as nat, num_tables as nat);
                    }
                    return Err(e);
                },
            };
            if er.subtable_offset as usize > b.len() {
                proof {
                    lemma_first_error_at(checks, i as nat, num_tables as nat);
                }
                return Err(DecodeError::InvalidOffset);
            }
            let start = er.subtable_offset as usize;
            let sub = &b[start..b.len()];
            let st = match SubTable::from_bytes(sub) {
                Ok(st) => st,
                Err(e) => {
                    proof {
                        lemma_first_error_at(checks, i as nat, num_tables as nat);
                    }
                    return Err(e);
                },
            };
            er.sub_table = Some(st);
            encoding_records.push(er);
            i += 1;
        }
        Ok(Self { version, num_tables, encoding_records })
    }
}

} // verus!
