use vstd::prelude::*;

use crate::error::DecodeError;
use crate::types::{Fixed, LongDateTime};
use crate::utils::{
    be16, be32, be64, read_fixed, read_int16, read_longdatetime, read_uint16, read_uint32, twos,
};

verus! {

/// The byte size of a font header table.
pub const HEAD_TABLE_SIZE: usize = 54;

/// The font header table (`head`): global metrics and flags of the font.
#[derive(Debug, Clone, Copy, PartialEq, Eq)]
pub struct FontHeaderTable {
    pub major_version: u16,
    pub minor_version: u16,
    pub font_revision: Fixed,
    pub checksum_adjustment: u32,
    pub magic_number: u32,
    pub flags: u16,
    pub units_per_em: u16,
    pub created: LongDateTime,
    pub modified: LongDateTime,
    pub x_min: i16,
    pub y_min: i16,
    pub x_max: i16,
    pub y_max: i16,
    pub mac_style: u16,
    pub lowest_rec_ppem: u16,
    pub font_direction_hint: i16,
    pub index_to_loc_format: i16,
    pub glyph_data_format: i16,
}

/// Whether `b` is too short for a font header table.
pub open spec fn head_error(b: Seq<u8>) -> Option<DecodeError> {
    if b.len() < HEAD_TABLE_SIZE {
        Some(DecodeError::MalformedInput)
    } else {
        None
    }
}

impl FontHeaderTable {
    /// Whether each field holds the value stored at its place at the start of `b`.
    pub open spec fn decoded_from(&self, b: Seq<u8>) -> bool {
        &&& b.len() >= HEAD_TABLE_SIZE
        &&& self.major_version as int == be16(b, 0)
        &&& self.minor_version as int == be16(b, 2)
        &&& self.font_revision.0 as int == twos(be32(b, 4), 0x1_0000_0000)
        &&& self.checksum_adjustment as int == be32(b, 8)
        &&& self.magic_number as int == be32(b, 12)
        &&& self.flags as int == be16(b, 16)
        &&& self.units_per_em as int == be16(b, 18)
        &&& self.created.0 as int == twos(be64(b, 20), 0x1_0000_0000_0000_0000)
        &&& self.modified.0 as int == twos(be64(b, 28), 0x1_0000_0000_0000_0000)
        &&& self.x_min as int == twos(be16(b, 36), 0x10000)
        &&& self.y_min as int == twos(be16(b, 38), 0x10000)
        &&& self.x_max as int == twos(be16(b, 40), 0x10000)
        &&& self.y_max as int == twos(be16(b, 42), 0x10000)
        &&& self.mac_style as int == be16(b, 44)
        &&& self.lowest_rec_ppem as int == be16(b, 46)
        &&& self.font_direction_hint as int == twos(be16(b, 48), 0x10000)
        &&& self.index_to_loc_format as int == twos(be16(b, 50), 0x10000)
        &&& self.glyph_data_format as int == twos(be16(b, 52), 0x10000)
    }

    /// Decodes a font header table from the start of `b`; bytes past the
    /// table are ignored.
    pub fn from_bytes(b: &[u8]) -> (r: Result<Self, DecodeError>)
        ensures
            match r {
                Ok(h) => head_error(b@) is None && h.decoded_from(b@),
                Err(e) => head_error(b@) == Some(e),
            },
    {
        let mut pos: usize = 0;
        let r = &mut pos;
        let major_version = read_uint16(b, r)?;
        let minor_version = read_uint16(b, r)?;
        let font_revision = read_fixed(b, r)?;
        let checksum_adjustment = read_uint32(b, r)?;
        let magic_number = read_uint32(b, r)?;
        let flags = read_uint16(b, r)?;
        let units_per_em = read_uint16(b, r)?;
        let created = read_longdatetime(b, r)?;
        let modified = read_longdatetime(b, r)?;
        let x_min = read_int16(b, r)?;
        let y_min = read_int16(b, r)?;
        let x_max = read_int16(b, r)?;
        let y_max = read_int16(b, r)?;
        let mac_style = read_uint16(b, r)?;
        let lowest_rec_ppem = read_uint16(b, r)?;
        let font_direction_hint = read_int16(b, r)?;
        let index_to_loc_format = read_int16(b, r)?;
        let glyph_data_format = read_int16(b, r)?;
        Ok(Self {
            major_version,
            minor_version,
            font_revision,
            checksum_adjustment,
            magic_number,
            flags,
            units_per_em,
            created,
            modified,
            x_min,
            y_min,
            x_max,
            y_max,
            mac_style,
            lowest_rec_ppem,
            font_direction_hint,
            index_to_loc_format,
            glyph_data_format,
        })
    }
}

} // verus!
