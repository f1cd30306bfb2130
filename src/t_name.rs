use vstd::prelude::*;

use crate::error::DecodeError;
use crate::types::Offset16;
use crate::utils::{
    be16, first_error, fits, get16, lemma_first_error_at, read_offset16, read_uint16,
};

verus! {

/// What `String::from_utf16` makes of a sequence of UTF-16 code units.
pub uninterp spec fn utf16_decode(units: Seq<u16>) -> Option<Seq<char>>;

/// The number of UTF-16 code units that `s` takes: one per character, two
/// (a surrogate pair) for a character past U+FFFF.
pub open spec fn utf16_len(s: Seq<char>) -> nat
    decreases s.len(),
{
    if s.len() == 0 {
        0
    } else {
        utf16_len(s.drop_last()) + if s.last() as u32 >= 0x10000 {
            2nat
        } else {
            1nat
        }
    }
}

/// Relies on `String::from_utf16`: it decodes UTF-16 code units and fails on
/// an unpaired surrogate; each character it yields comes from one unit, or
/// from two past U+FFFF.
#[verifier::external_body]
fn string_from_utf16(units: &[u16]) -> (r: Option<String>)
    ensures
        match r {
            Some(s) => utf16_decode(units@) == Some(s@) && utf16_len(s@) == units@.len(),
            None => utf16_decode(units@) is None,
        },
{
    String::from_utf16(units).ok()
}

/// The big-endian 16-bit units that the bytes `b` hold, two bytes each.
pub open spec fn be_units(b: Seq<u8>) -> Seq<u16> {
    Seq::new(b.len() / 2, |i: int| be16(b, 2 * i) as u16)
}

/// The UTF-16BE text in the `len` bytes of `b` from `start`.
pub open spec fn utf16be_text(b: Seq<u8>, start: int, len: int) -> Result<Seq<char>, DecodeError> {
    if start + len > b.len() {
        Err(DecodeError::InvalidOffset)
    } else if len % 2 != 0 {
        Err(DecodeError::InvalidEncoding)
    } else {
        match utf16_decode(be_units(b.subrange(start, start + len))) {
            Some(s) => Ok(s),
            None => Err(DecodeError::InvalidEncoding),
        }
    }
}

/// Decodes the UTF-16BE text in the `len` bytes of `b` from `start`.
pub fn read_utf16be(b: &[u8], start: usize, len: usize) -> (r: Result<String, DecodeError>)
    ensures
        match r {
            Ok(s) => {
                &&& utf16be_text(b@, start as int, len as int) == Ok::<Seq<char>, DecodeError>(s@)
                &&& 2 * utf16_len(s@) == len
            },
            Err(e) => utf16be_text(b@, start as int, len as int) == Err::<Seq<char>, DecodeError>(
                e,
            ),
        },
{
    if start > b.len() || b.len() - start < len {
        return Err(DecodeError::InvalidOffset);
    }
    if len % 2 != 0 {
        return Err(DecodeError::InvalidEncoding);
    }
    let ghost text = b@.subrange(start as int, start + len);
    let n = len / 2;
    let mut units: Vec<u16> = Vec::with_capacity(n);
    let mut i: usize = 0;
    while i < n
        invariant
            n == len / 2,
            start + len <= b@.len(),
            start + len <= usize::MAX,
            i <= n,
            units@.len() == i,
            forall|j: int| 0 <= j < i ==> units@[j] as int == be16(b@, start + 2 * j),
        decreases n - i,
    {
        units.push(get16(b, start + 2 * i));
        i += 1;
    }
    assert(units@ =~= be_units(text));
    match string_from_utf16(units.as_slice()) {
        Some(s) => Ok(s),
        None => Err(DecodeError::InvalidEncoding),
    }
}

/// The description of a name identifier.
pub open spec fn name_desc(name_id: u16) -> Seq<char> {
    match name_id {
        0 => "Copyright notice"@,
        1 => "Font Family name"@,
        2 => "Font Subfamily name"@,
        3 => "Unique font identifier"@,
        4 => "Full font name"@,
        5 => "Version string"@,
        6 => "PostScript name"@,
        7 => "Trademark"@,
        8 => "Manufacturer Name"@,
        9 => "Designer"@,
        10 => "Description"@,
        11 => "URL of Vendor"@,
        12 => "URL of Designer"@,
        13 => "License Description"@,
        14 => "License Info URL"@,
        15 => "Reserved"@,
        16 => "Typographic Family name"@,
        17 => "Typographic Subfamily name"@,
        18 => "Compatible Full (Macintosh only)"@,
        19 => "Sample text"@,
        20 => "PostScript CID findfont name"@,
        21 => "WWS Family Name"@,
        22 => "WWS Subfamily Name"@,
        23 => "Light Background Palette"@,
        24 => "Dark Background Palette"@,
        25 => "Variations PostScript Name Prefix"@,
        _ => if name_id <= 255 {
            "reserved for future standard names"@
        } else if name_id <= 32767 {
            "reserved for font-specific names"@
        } else {
            "error name id"@
        },
    }
}

/// One entry of the naming table: the identifiers of a string and where it is stored.
#[derive(Debug, Clone, PartialEq, Eq)]
pub struct NameRecord {
    pub platform_id: u16,
    pub encoding_id: u16,
    pub language_id: u16,
    pub name_id: u16,
    /// Byte length of the string.
    pub length: u16,
    /// String offset from start of storage area (in bytes).
    pub string_offset: Offset16,
    /// The decoded string, once it has been read from the storage area.
    pub content: Option<String>,
}

impl NameRecord {
    /// Whether the fixed fields are the 12 bytes of `b` from `p`.
    pub open spec fn fields_at(&self, b: Seq<u8>, p: int) -> bool {
        &&& fits(b, p, 12)
        &&& self.platform_id as int == be16(b, p)
        &&& self.encoding_id as int == be16(b, p + 2)
        &&& self.language_id as int == be16(b, p + 4)
        &&& self.name_id as int == be16(b, p + 6)
        &&& self.length as int == be16(b, p + 8)
        &&& self.string_offset as int == be16(b, p + 10)
    }

    /// Whether `content` holds the text that the record points at, in the
    /// storage area of table `b` that starts at `storage`.
    pub open spec fn resolved_in(&self, b: Seq<u8>, storage: int) -> bool {
        &&& self.content is Some
        &&& utf16be_text(b, storage + self.string_offset, self.length as int) == Ok::<
            Seq<char>,
            DecodeError,
        >(self.content.unwrap()@)
        &&& 2 * utf16_len(self.content.unwrap()@) == self.length
    }

    /// Reads the 12 bytes of a name record at `*pos`; its string is left unread.
    pub fn from_bytes(b: &[u8], pos: &mut usize) -> (r: Result<Self, DecodeError>)
        ensures
            match r {
                Ok(nr) => {
                    &&& nr.fields_at(b@, *old(pos) as int)
                    &&& nr.content is None
                    &&& *final(pos) == *old(pos) + 12
                },
                Err(e) => !fits(b@, *old(pos) as int, 12) && e == DecodeError::MalformedInput,
            },
    {
        let platform_id = read_uint16(b, pos)?;
        let encoding_id = read_uint16(b, pos)?;
        let language_id = read_uint16(b, pos)?;
        let name_id = read_uint16(b, pos)?;
        let length = read_uint16(b, pos)?;
        let string_offset = read_offset16(b, pos)?;
        Ok(Self {
            platform_id,
            encoding_id,
            language_id,
            name_id,
            length,
            string_offset,
            content: None,
        })
    }

    /// Describes a name identifier.
    pub fn get_name_desc(name_id: u16) -> (r: &'static str)
        ensures
            r@ == name_desc(name_id),
    {
        match name_id {
            0 => "Copyright notice",
            1 => "Font Family name",
            2 => "Font Subfamily name",
            3 => "Unique font identifier",
            4 => "Full font name",
            5 => "Version string",
            6 => "PostScript name",
            7 => "Trademark",
            8 => "Manufacturer Name",
            9 => "Designer",
            10 => "Description",
            11 => "URL of Vendor",
            12 => "URL of Designer",
            13 => "License Description",
            14 => "License Info URL",
            15 => "Reserved",
            16 => "Typographic Family name",
            17 => "Typographic Subfamily name",
            18 => "Compatible Full (Macintosh only)",
            19 => "Sample text",
            20 => "PostScript CID findfont name",
            21 => "WWS Family Name",
            22 => "WWS Subfamily Name",
            23 => "Light Background Palette",
            24 => "Dark Background Palette",
            25 => "Variations PostScript Name Prefix",
            26..=255 => "reserved for future standard names",
            256..=32767 => "reserved for font-specific names",
            _ => "error name id",
        }
    }
}

/// A language-tag entry of a version 1 naming table.
#[derive(Debug, Clone, PartialEq, Eq)]
pub struct LangTagRecord {
    /// Byte length of the language-tag string.
    pub length: u16,
    /// Language-tag string offset from start of storage area (in bytes).
    pub lang_tag_offset: Offset16,
    /// The decoded language tag, once it has been read from the storage area.
    pub content: Option<String>,
}

impl LangTagRecord {
    /// Whether the fixed fields are the 4 bytes of `b` from `p`.
    pub open spec fn fields_at(&self, b: Seq<u8>, p: int) -> bool {
        &&& fits(b, p, 4)
        &&& self.length as int == be16(b, p)
        &&& self.lang_tag_offset as int == be16(b, p + 2)
    }

    /// Whether `content` holds the text that the record points at, in the
    /// storage area of table `b` that starts at `storage`.
    pub open spec fn resolved_in(&self, b: Seq<u8>, storage: int) -> bool {
        &&& self.content is Some
        &&& utf16be_text(b, storage + self.lang_tag_offset, self.length as int) == Ok::<
            Seq<char>,
            DecodeError,
        >(self.content.unwrap()@)
        &&& 2 * utf16_len(self.content.unwrap()@) == self.length
    }

    /// Reads the 4 bytes of a language-tag record at `*pos`; its string is left unread.
    pub fn from_bytes(b: &[u8], pos: &mut usize) -> (r: Result<Self, DecodeError>)
        ensures
            match r {
                Ok(lr) => {
                    &&& lr.fields_at(b@, *old(pos) as int)
                    &&& lr.content is None
                    &&& *final(pos) == *old(pos) + 4
                },
                Err(e) => !fits(b@, *old(pos) as int, 4) && e == DecodeError::MalformedInput,
            },
    {
        let length = read_uint16(b, pos)?;
        let lang_tag_offset = read_offset16(b, pos)?;
        Ok(Self { length, lang_tag_offset, content: None })
    }
}

/// Where the name record `i` starts.
pub open spec fn name_record_pos(i: int) -> int {
    6 + 12 * i
}

/// Where the language-tag count stands in table `b`.
pub open spec fn lang_tag_count_pos(b: Seq<u8>) -> int {
    name_record_pos(be16(b, 2))
}

/// Where the language-tag record `j` starts in table `b`.
pub open spec fn lang_tag_record_pos(b: Seq<u8>, j: int) -> int {
    lang_tag_count_pos(b) + 2 + 4 * j
}

/// The failure, if any, of name record `i` of table `b`, its string included.
pub open spec fn name_record_error(b: Seq<u8>, i: int) -> Option<DecodeError> {
    let p = name_record_pos(i);
    if !fits(b, p, 12) {
        Some(DecodeError::MalformedInput)
    } else {
        match utf16be_text(b, be16(b, 4) + be16(b, p + 10), be16(b, p + 8)) {
            Ok(_) => None,
            Err(e) => Some(e),
        }
    }
}

/// The failure, if any, of language-tag record `j` of table `b`, its string included.
pub open spec fn lang_tag_record_error(b: Seq<u8>, j: int) -> Option<DecodeError> {
    let p = lang_tag_record_pos(b, j);
    if !fits(b, p, 4) {
        Some(DecodeError::MalformedInput)
    } else {
        match utf16be_text(b, be16(b, 4) + be16(b, p + 2), be16(b, p)) {
            Ok(_) => None,
            Err(e) => Some(e),
        }
    }
}

/// The check of each name record of table `b`, by index.
pub open spec fn name_record_checks(b: Seq<u8>) -> spec_fn(int) -> Option<DecodeError> {
    |i: int| name_record_error(b, i)
}

/// The check of each language-tag record of table `b`, by index.
pub open spec fn lang_tag_record_checks(b: Seq<u8>) -> spec_fn(int) -> Option<DecodeError> {
    |j: int| lang_tag_record_error(b, j)
}

/// The first failure met in decoding `b` as a naming table, if any.
pub open spec fn naming_error(b: Seq<u8>) -> Option<DecodeError> {
    if b.len() < 6 {
        Some(DecodeError::MalformedInput)
    } else {
        match first_error(name_record_checks(b), be16(b, 2) as nat) {
            Some(e) => Some(e),
            None => if be16(b, 0) == 0 {
                None
            } else if !fits(b, lang_tag_count_pos(b), 2) {
                Some(DecodeError::MalformedInput)
            } else {
                first_error(lang_tag_record_checks(b), be16(b, lang_tag_count_pos(b)) as nat)
            },
        }
    }
}

/// Each string of a decoded naming table takes in UTF-16 exactly the bytes
/// that its record declares.
pub proof fn lemma_name_text_length(b: Seq<u8>, t: NamingTable)
    requires
        t.decoded_from(b),
    ensures
        forall|i: int|
            0 <= i < t.name_record@.len() ==> 2 * utf16_len(
                (#[trigger] t.name_record@[i]).content.unwrap()@,
            ) == t.name_record@[i].length,
{
}

/// A version 0 naming table has no language-tag data; a version 1 table
/// that declares no language tags has an empty, present list of them.
pub proof fn lemma_version_gates_lang_tags(b: Seq<u8>, t: NamingTable)
    requires
        t.decoded_from(b),
    ensures
        t.version == 0 ==> t.lang_tag_count is None && t.lang_tag_record is None,
        t.version == 1 && be16(b, lang_tag_count_pos(b)) == 0 ==> {
            &&& t.lang_tag_count == Some(0u16)
            &&& t.lang_tag_record is Some
            &&& t.lang_tag_record.unwrap()@.len() == 0
        },
{
}

/// The naming table (`name`): the font's strings and, from version 1 on,
/// its language tags.
#[derive(Debug, Clone, PartialEq, Eq)]
pub struct NamingTable {
    pub version: u16,
    pub count: u16,
    /// Offset to start of string storage (from start of table).
    pub storage_offset: Offset16,
    pub name_record: Vec<NameRecord>,
    /// Present in version 1 and later only.
    pub lang_tag_count: Option<u16>,
    /// Present in version 1 and later only.
    pub lang_tag_record: Option<Vec<LangTagRecord>>,
}

impl NamingTable {
    /// Whether this is what table `b` holds, every string resolved.
    pub open spec fn decoded_from(&self, b: Seq<u8>) -> bool {
        &&& b.len() >= 6
        &&& self.version as int == be16(b, 0)
        &&& self.count as int == be16(b, 2)
        &&& self.storage_offset as int == be16(b, 4)
        &&& self.name_record@.len() == self.count
        &&& forall|i: int|
            0 <= i < self.count ==> {
                &&& (#[trigger] self.name_record@[i]).fields_at(b, name_record_pos(i))
                &&& self.name_record@[i].resolved_in(b, self.storage_offset as int)
            }
        &&& self.version == 0 ==> self.lang_tag_count is None && self.lang_tag_record is None
        &&& self.version != 0 ==> {
            &&& fits(b, lang_tag_count_pos(b), 2)
            &&& self.lang_tag_count == Some(be16(b, lang_tag_count_pos(b)) as u16)
            &&& self.lang_tag_record is Some
            &&& self.lang_tag_record.unwrap()@.len() == be16(b, lang_tag_count_pos(b))
            &&& forall|j: int|
                0 <= j < self.lang_tag_record.unwrap()@.len() ==> {
                    &&& (#[trigger] self.lang_tag_record.unwrap()@[j]).fields_at(
                        b,
                        lang_tag_record_pos(b, j),
                    )
                    &&& self.lang_tag_record.unwrap()@[j].resolved_in(
                        b,
                        self.storage_offset as int,
                    )
                }
        }
    }

    /// Decodes the naming table `b`, reading every string from its storage area.
    pub fn from_bytes(b: &[u8]) -> (r: Result<Self, DecodeError>)
        ensures
            match r {
                Ok(t) => naming_error(b@) is None && t.decoded_from(b@),
                Err(e) => naming_error(b@) == Some(e),
            },
    {
        let mut pos: usize = 0;
        let version = read_uint16(b, &mut pos)?;
        let count = read_uint16(b, &mut pos)?;
        let storage_offset = read_offset16(b, &mut pos)?;
        let ghost checks = name_record_checks(b@);
        let mut name_record: Vec<NameRecord> = Vec::with_capacity(count as usize);
        let mut i: u16 = 0;
        while i < count
            invariant
                b@.len() >= 6,
                version as int == be16(b@, 0),
                count as int == be16(b@, 2),
                storage_offset as int == be16(b@, 4),
                checks == name_record_checks(b@),
                i <= count,
                pos == name_record_pos(i as int),
                first_error(checks, i as nat) is None,
                name_record@.len() == i,
                forall|k: int|
                    0 <= k < i ==> {
                        &&& (#[trigger] name_record@[k]).fields_at(b@, name_record_pos(k))
                        &&& name_record@[k].resolved_in(b@, storage_offset as int)
                    },
            decreases count - i,
        {
            let mut nr = match NameRecord::from_bytes(b, &mut pos) {
                Ok(nr) => nr,
                Err(e) => {
                    proof {
                        lemma_first_error_at(checks, i as nat, count as nat);
                    }
                    return Err(e);
                },
            };
            let start = storage_offset as usize + nr.string_offset as usize;
            let text = match read_utf16be(b, start, nr.length as usize) {
                Ok(text) => text,
                Err(e) => {
                    proof {
                        lemma_first_error_at(checks, i as nat, count as nat);
                    }
                    return Err(e);
                },
            };
            nr.content = Some(text);
            name_record.push(nr);
            i += 1;
        }
        if version == 0 {
            return Ok(Self {
                version,
                count,
                storage_offset,
                name_record,
                lang_tag_count: None,
                lang_tag_record: None,
            });
        }
        let lang_tag_count = read_uint16(b, &mut pos)?;
        let ghost checks = lang_tag_record_checks(b@);
        let mut lang_tag_record: Vec<LangTagRecord> = Vec::with_capacity(lang_tag_count as usize);
        let mut j: u16 = 0;
        while j < lang_tag_count
            invariant
                b@.len() >= 6,
                count as int == be16(b@, 2),
                storage_offset as int == be16(b@, 4),
                version as int == be16(b@, 0),
                version != 0,
                first_error(name_record_checks(b@), count as nat) is None,
                fits(b@, lang_tag_count_pos(b@), 2),
                lang_tag_count as int == be16(b@, lang_tag_count_pos(b@)),
                checks == lang_tag_record_checks(b@),
                j <= lang_tag_count,
                pos == lang_tag_record_pos(b@, j as int),
                first_error(checks, j as nat) is None,
                lang_tag_record@.len() == j,
                forall|k: int|
                    0 <= k < j ==> {
                        &&& (#[trigger] lang_tag_record@[k]).fields_at(
                            b@,
                            lang_tag_record_pos(b@, k),
                        )
                        &&& lang_tag_record@[k].resolved_in(b@, storage_offset as int)
                    },
            decreases lang_tag_count - j,
        {
            let mut lr = match LangTagRecord::from_bytes(b, &mut pos) {
                Ok(lr) => lr,
                Err(e) => {
                    proof {
                        lemma_first_error_at(checks, j as nat, lang_tag_count as nat);
                    }
                    return Err(e);
                },
            };
            let start = storage_offset as usize + lr.lang_tag_offset as usize;
            let text = match read_utf16be(b, start, lr.length as usize) {
                Ok(text) => text,
                Err(e) => {
                    proof {
                        lemma_first_error_at(checks, j as nat, lang_tag_count as nat);
                    }
                    return Err(e);
                },
            };
            lr.content = Some(text);
            lang_tag_record.push(lr);
            j += 1;
        }
        Ok(Self {
            version,
            count,
            storage_offset,
            name_record,
            lang_tag_count: Some(lang_tag_count),
            lang_tag_record: Some(lang_tag_record),
        })
    }
}

} // verus!
