use otf::t_cmap::{CharacterToGlyphIndexMappingTable, SubTable};
use otf::t_head::FontHeaderTable;
use otf::t_name::{read_utf16be, NameRecord, NamingTable};
use otf::types::{Fixed, LongDateTime, Tag};
use otf::{DecodeError, Font, TableDirectory, TableKind};

fn be16(v: u16) -> [u8; 2] {
    v.to_be_bytes()
}

fn utf16be(s: &str) -> Vec<u8> {
    s.encode_utf16().flat_map(|u| u.to_be_bytes()).collect()
}

/// A naming table of the given version whose records point at `texts`, one each.
fn naming_table(version: u16, texts: &[&str], lang_tags: Option<&[&str]>) -> Vec<u8> {
    let lang = lang_tags.unwrap_or(&[]);
    let header_len = 6 + 12 * texts.len() + if version == 0 { 0 } else { 2 + 4 * lang.len() };
    let mut t = Vec::new();
    t.extend(be16(version));
    t.extend(be16(texts.len() as u16));
    t.extend(be16(header_len as u16));
    let mut storage = Vec::new();
    for (i, s) in texts.iter().enumerate() {
        let bytes = utf16be(s);
        t.extend(be16(3));
        t.extend(be16(1));
        t.extend(be16(0x0409));
        t.extend(be16(i as u16));
        t.extend(be16(bytes.len() as u16));
        t.extend(be16(storage.len() as u16));
        storage.extend(bytes);
    }
    if version != 0 {
        t.extend(be16(lang.len() as u16));
        for s in lang {
            let bytes = utf16be(s);
            t.extend(be16(bytes.len() as u16));
            t.extend(be16(storage.len() as u16));
            storage.extend(bytes);
        }
    }
    t.extend(storage);
    t
}

/// A font file holding the given tables, in order.
fn font(tables: &[(&[u8; 4], Vec<u8>)]) -> Vec<u8> {
    let mut f = Vec::new();
    f.extend(0x0001_0000u32.to_be_bytes());
    f.extend(be16(tables.len() as u16));
    f.extend(be16(16));
    f.extend(be16(0));
    f.extend(be16(0));
    let mut offset = 12 + 16 * tables.len();
    for (tag, body) in tables {
        f.extend(tag.iter());
        f.extend(0u32.to_be_bytes());
        f.extend((offset as u32).to_be_bytes());
        f.extend((body.len() as u32).to_be_bytes());
        offset += body.len();
    }
    for (_, body) in tables {
        f.extend(body.iter());
    }
    f
}

fn head_table() -> Vec<u8> {
    let mut h = Vec::new();
    h.extend(be16(1));
    h.extend(be16(0));
    h.extend([0x00, 0x02, 0x80, 0x00]);
    h.extend(0x1234_5678u32.to_be_bytes());
    h.extend(0x5F0F_3CF5u32.to_be_bytes());
    h.extend(be16(3));
    h.extend(be16(1000));
    h.extend(0i64.to_be_bytes());
    h.extend(86400i64.to_be_bytes());
    h.extend((-100i16).to_be_bytes());
    h.extend((-200i16).to_be_bytes());
    h.extend(900i16.to_be_bytes());
    h.extend(800i16.to_be_bytes());
    h.extend(be16(1));
    h.extend(be16(8));
    h.extend(2i16.to_be_bytes());
    h.extend(1i16.to_be_bytes());
    h.extend(0i16.to_be_bytes());
    h
}

fn cmap_table(formats: &[u16]) -> Vec<u8> {
    let mut c = Vec::new();
    c.extend(be16(0));
    c.extend(be16(formats.len() as u16));
    let base = 4 + 8 * formats.len();
    for (i, _) in formats.iter().enumerate() {
        c.extend(be16(3));
        c.extend(be16(i as u16));
        c.extend(((base + 2 * i) as u32).to_be_bytes());
    }
    for f in formats {
        c.extend(be16(*f));
    }
    c
}

#[test]
fn minimal_font_with_one_name_table() {
    let b = font(&[(b"name", naming_table(0, &["Test"], None))]);
    let f = Font::from_bytes(&b).unwrap();
    assert_eq!(f.table_directory.num_tables, 1);
    let t = f.t_name.unwrap();
    assert_eq!(t.name_record[0].content.as_deref(), Some("Test"));
    assert!(f.t_head.is_none());
    assert!(f.t_cmap.is_none());
}

#[test]
fn directory_holds_declared_records() {
    let b = font(&[(b"name", naming_table(0, &[], None)), (b"abcd", vec![1, 2, 3])]);
    let d = TableDirectory::from_bytes(&b).unwrap();
    assert_eq!(d.num_tables, 2);
    assert_eq!(d.table_records.len(), 2);
    assert_eq!(d.sfnt_version, 0x0001_0000);
    assert_eq!(d.search_range, 16);
    assert_eq!(d.table_records[1].table_tag, Tag(*b"abcd"));
    assert_eq!(d.table_records[1].offset, 12 + 32 + 6);
    assert_eq!(d.table_records[1].length, 3);
}

#[test]
fn truncated_directory_is_malformed() {
    let mut b = font(&[(b"name", naming_table(0, &[], None)), (b"cmap", cmap_table(&[4]))]);
    b.truncate(12 + 16 + 8);
    assert_eq!(TableDirectory::from_bytes(&b).err(), Some(DecodeError::MalformedInput));
    assert_eq!(Font::from_bytes(&b).err(), Some(DecodeError::MalformedInput));
    assert_eq!(Font::from_bytes(&b[..7]).err(), Some(DecodeError::MalformedInput));
}

#[test]
fn table_past_end_of_file_is_invalid_offset() {
    let mut b = font(&[(b"abcd", vec![0; 8])]);
    b.truncate(b.len() - 1);
    assert_eq!(Font::from_bytes(&b).err(), Some(DecodeError::InvalidOffset));
    let mut c = font(&[(b"name", naming_table(0, &["x"], None))]);
    c[12 + 8..12 + 12].copy_from_slice(&0xffff_fff0u32.to_be_bytes());
    assert_eq!(Font::from_bytes(&c).err(), Some(DecodeError::InvalidOffset));
}

#[test]
fn unknown_tags_are_ignored() {
    let b = font(&[(b"glyf", vec![9; 5]), (b"head", head_table())]);
    let f = Font::from_bytes(&b).unwrap();
    assert!(f.t_head.is_some());
    assert!(f.t_name.is_none());
}

#[test]
fn last_table_of_a_tag_wins() {
    let b = font(&[
        (b"name", naming_table(0, &["First"], None)),
        (b"name", naming_table(0, &["Second"], None)),
    ]);
    let f = Font::from_bytes(&b).unwrap();
    assert_eq!(f.t_name.unwrap().name_record[0].content.as_deref(), Some("Second"));
}

#[test]
fn table_error_reaches_font() {
    let b = font(&[(b"head", vec![0; 20])]);
    assert_eq!(Font::from_bytes(&b).err(), Some(DecodeError::MalformedInput));
}

#[test]
fn table_kinds_by_tag() {
    assert_eq!(TableKind::from_tag(&Tag(*b"head")), TableKind::FontHeader);
    assert_eq!(TableKind::from_tag(&Tag(*b"name")), TableKind::Naming);
    assert_eq!(TableKind::from_tag(&Tag(*b"cmap")), TableKind::CharacterMapping);
    assert_eq!(TableKind::from_tag(&Tag(*b"Name")), TableKind::Ignored);
}

#[test]
fn font_header_fields() {
    let h = FontHeaderTable::from_bytes(&head_table()).unwrap();
    assert_eq!(h.major_version, 1);
    assert_eq!(h.font_revision, Fixed(0x0002_8000));
    assert_eq!(h.checksum_adjustment, 0x1234_5678);
    assert_eq!(h.magic_number, 0x5F0F_3CF5);
    assert_eq!(h.units_per_em, 1000);
    assert_eq!(h.created, LongDateTime(0));
    assert_eq!(h.modified, LongDateTime(86400));
    assert_eq!((h.x_min, h.y_min, h.x_max, h.y_max), (-100, -200, 900, 800));
    assert_eq!(h.lowest_rec_ppem, 8);
    assert_eq!(h.font_direction_hint, 2);
    assert_eq!(h.index_to_loc_format, 1);
    assert_eq!(h.glyph_data_format, 0);
}

#[test]
fn short_font_header_is_malformed() {
    let h = head_table();
    assert_eq!(FontHeaderTable::from_bytes(&h[..53]).err(), Some(DecodeError::MalformedInput));
}

#[test]
fn name_record_text_length_matches_declared() {
    let t = NamingTable::from_bytes(&naming_table(0, &["Ab", "\u{1D11E}x"], None)).unwrap();
    assert_eq!(t.count, 2);
    for r in &t.name_record {
        let s = r.content.as_ref().unwrap();
        assert_eq!(s.encode_utf16().count() * 2, r.length as usize);
    }
    assert_eq!(t.name_record[1].content.as_deref(), Some("\u{1D11E}x"));
    assert_eq!(t.name_record[1].length, 6);
}

#[test]
fn version_zero_has_no_lang_tags() {
    let t = NamingTable::from_bytes(&naming_table(0, &["A"], None)).unwrap();
    assert_eq!(t.lang_tag_count, None);
    assert!(t.lang_tag_record.is_none());
}

#[test]
fn version_one_with_no_lang_tags_has_empty_list() {
    let t = NamingTable::from_bytes(&naming_table(1, &["A"], Some(&[]))).unwrap();
    assert_eq!(t.lang_tag_count, Some(0));
    assert_eq!(t.lang_tag_record.map(|v| v.len()), Some(0));
}

#[test]
fn version_one_lang_tags_are_resolved() {
    let t = NamingTable::from_bytes(&naming_table(1, &["A"], Some(&["en-US", "zh"]))).unwrap();
    let tags = t.lang_tag_record.unwrap();
    assert_eq!(tags.len(), 2);
    assert_eq!(tags[0].content.as_deref(), Some("en-US"));
    assert_eq!(tags[1].content.as_deref(), Some("zh"));
    assert_eq!(tags[1].length, 4);
}

#[test]
fn missing_lang_tag_count_is_malformed() {
    let mut b = naming_table(0, &[], None);
    b[1] = 1;
    assert_eq!(NamingTable::from_bytes(&b).err(), Some(DecodeError::MalformedInput));
}

#[test]
fn name_string_past_table_is_invalid_offset() {
    let mut b = naming_table(0, &["Test"], None);
    b.truncate(b.len() - 2);
    assert_eq!(NamingTable::from_bytes(&b).err(), Some(DecodeError::InvalidOffset));
}

#[test]
fn odd_name_length_is_invalid_encoding() {
    let mut b = naming_table(0, &["Test"], None);
    b[6 + 9] = 7;
    assert_eq!(NamingTable::from_bytes(&b).err(), Some(DecodeError::InvalidEncoding));
}

#[test]
fn unpaired_surrogate_is_invalid_encoding() {
    let mut b = naming_table(0, &["ab"], None);
    let n = b.len();
    b[n - 2] = 0xd8;
    b[n - 1] = 0x00;
    assert_eq!(NamingTable::from_bytes(&b).err(), Some(DecodeError::InvalidEncoding));
}

#[test]
fn truncated_name_records_are_malformed() {
    let b = naming_table(0, &["ab"], None);
    assert_eq!(NamingTable::from_bytes(&b[..10]).err(), Some(DecodeError::MalformedInput));
    assert_eq!(NamingTable::from_bytes(&b[..5]).err(), Some(DecodeError::MalformedInput));
}

#[test]
fn name_record_fields() {
    let b = [0u8, 3, 0, 1, 0x04, 0x09, 0, 4, 0, 8, 0, 2];
    let mut pos: usize = 0;
    let r = NameRecord::from_bytes(&b, &mut pos).unwrap();
    assert_eq!((r.platform_id, r.encoding_id, r.language_id, r.name_id), (3, 1, 0x0409, 4));
    assert_eq!((r.length, r.string_offset), (8, 2));
    assert!(r.content.is_none());
    assert_eq!(pos, 12);
    assert_eq!(NameRecord::get_name_desc(4), "Full font name");
    assert_eq!(NameRecord::get_name_desc(300), "reserved for font-specific names");
    assert_eq!(NameRecord::get_name_desc(40000), "error name id");
}

#[test]
fn utf16be_text_reading() {
    let b = [0u8, 0x48, 0, 0x69, 0xd8, 0x34, 0xdd, 0x1e];
    assert_eq!(read_utf16be(&b, 0, 4), Ok(String::from("Hi")));
    assert_eq!(read_utf16be(&b, 4, 4), Ok(String::from("\u{1D11E}")));
    assert_eq!(read_utf16be(&b, 2, 0), Ok(String::new()));
    assert_eq!(read_utf16be(&b, 6, 4), Err(DecodeError::InvalidOffset));
    assert_eq!(read_utf16be(&b, 0, 3), Err(DecodeError::InvalidEncoding));
    assert_eq!(read_utf16be(&b, 4, 2), Err(DecodeError::InvalidEncoding));
}

#[test]
fn cmap_format_descriptors() {
    assert_eq!(SubTable::get_format_desc(4), "Segment mapping to delta values");
    assert_eq!(SubTable::get_format_desc(99), "error format");
    assert_eq!(SubTable::get_format_desc(14), "Unicode variation sequences");
}

#[test]
fn cmap_subtable_formats_are_read() {
    let t = CharacterToGlyphIndexMappingTable::from_bytes(&cmap_table(&[4, 99, 12])).unwrap();
    assert_eq!(t.num_tables, 3);
    let formats: Vec<u16> = t.encoding_records.iter().map(|e| e.sub_table.unwrap().format).collect();
    assert_eq!(formats, vec![4, 99, 12]);
    let f = t.encoding_records[0].sub_table.unwrap().format;
    assert_eq!(SubTable::get_format_desc(f), "Segment mapping to delta values");
    assert_eq!(t.encoding_records[2].encoding_id, 2);
}

#[test]
fn cmap_records_may_share_a_subtable() {
    let mut c = cmap_table(&[4, 6]);
    c[4 + 8 + 4..4 + 8 + 8].copy_from_slice(&20u32.to_be_bytes());
    let t = CharacterToGlyphIndexMappingTable::from_bytes(&c).unwrap();
    assert_eq!(t.encoding_records[0].subtable_offset, 20);
    assert_eq!(t.encoding_records[1].subtable_offset, 20);
    assert_eq!(t.encoding_records[1].sub_table, Some(SubTable { format: 4 }));
}

#[test]
fn cmap_subtable_offset_past_table_is_invalid() {
    let mut c = cmap_table(&[4]);
    c[8..12].copy_from_slice(&100u32.to_be_bytes());
    assert_eq!(
        CharacterToGlyphIndexMappingTable::from_bytes(&c).err(),
        Some(DecodeError::InvalidOffset)
    );
}

#[test]
fn cmap_subtable_format_cut_off_is_malformed() {
    let c = cmap_table(&[4]);
    assert_eq!(
        CharacterToGlyphIndexMappingTable::from_bytes(&c[..13]).err(),
        Some(DecodeError::MalformedInput)
    );
    assert_eq!(
        CharacterToGlyphIndexMappingTable::from_bytes(&c[..9]).err(),
        Some(DecodeError::MalformedInput)
    );
}

#[test]
fn font_with_all_three_tables() {
    let b = font(&[
        (b"cmap", cmap_table(&[4])),
        (b"head", head_table()),
        (b"name", naming_table(1, &["Family"], Some(&["en"]))),
    ]);
    let f = Font::from_bytes(&b).unwrap();
    assert_eq!(f.t_cmap.unwrap().encoding_records[0].sub_table, Some(SubTable { format: 4 }));
    assert_eq!(f.t_head.unwrap().units_per_em, 1000);
    assert_eq!(f.t_name.unwrap().name_record[0].content.as_deref(), Some("Family"));
}
