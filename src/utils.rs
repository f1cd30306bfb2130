use vstd::prelude::*;

use crate::error::DecodeError;
use crate::types::{Fixed, LongDateTime, Offset16, Offset24, Offset32, Offset8, Tag, Version16Dot16};

verus! {

/// The unsigned big-endian value of the two bytes at `i`.
pub open spec fn be16(b: Seq<u8>, i: int) -> int {
    b[i] as int * 0x100 + b[i + 1] as int
}

/// The unsigned big-endian value of the three bytes at `i`.
pub open spec fn be24(b: Seq<u8>, i: int) -> int {
    b[i] as int * 0x10000 + be16(b, i + 1)
}

/// The unsigned big-endian value of the four bytes at `i`.
pub open spec fn be32(b: Seq<u8>, i: int) -> int {
    be16(b, i) * 0x10000 + be16(b, i + 2)
}

/// The unsigned big-endian value of the eight bytes at `i`.
pub open spec fn be64(b: Seq<u8>, i: int) -> int {
    be32(b, i) * 0x1_0000_0000 + be32(b, i + 4)
}

/// `x`, an unsigned value below `m` (a power of two), read in two's complement.
pub open spec fn twos(x: int, m: int) -> int {
    if 2 * x >= m {
        x - m
    } else {
        x
    }
}

/// Whether `n` bytes are left in `b` from position `p`.
pub open spec fn fits(b: Seq<u8>, p: int, n: int) -> bool {
    p + n <= b.len()
}

/// The first error among the checks `f(0)`, ..., `f(n - 1)`, run in order.
pub open spec fn first_error(f: spec_fn(int) -> Option<DecodeError>, n: nat) -> Option<
    DecodeError,
>
    decreases n,
{
    if n == 0 {
        None
    } else {
        match first_error(f, (n - 1) as nat) {
            Some(e) => Some(e),
            None => f(n - 1),
        }
    }
}

/// Once the checks before `i` pass, the first failing one at `i` decides the outcome.
pub proof fn lemma_first_error_at(f: spec_fn(int) -> Option<DecodeError>, i: nat, n: nat)
    requires
        first_error(f, i) is None,
        f(i as int) is Some,
        i < n,
    ensures
        first_error(f, n) == f(i as int),
    decreases n,
{
    if n > i + 1 {
        lemma_first_error_at(f, i, (n - 1) as nat);
    }
}

fn take(b: &[u8], pos: &mut usize, n: usize) -> (r: Result<usize, DecodeError>)
    ensures
        match r {
            Ok(start) => {
                &&& fits(b@, *old(pos) as int, n as int)
                &&& start == *old(pos)
                &&& *final(pos) == *old(pos) + n
            },
            Err(e) => {
                &&& !fits(b@, *old(pos) as int, n as int)
                &&& e == DecodeError::MalformedInput
                &&& *final(pos) == *old(pos)
            },
        },
{
    if *pos > b.len() || b.len() - *pos < n {
        Err(DecodeError::MalformedInput)
    } else {
        let start = *pos;
        *pos = start + n;
        Ok(start)
    }
}

pub(crate) fn get16(b: &[u8], p: usize) -> (r: u16)
    requires
        fits(b@, p as int, 2),
        p + 2 <= usize::MAX,
    ensures
        r as int == be16(b@, p as int),
{
    b[p] as u16 * 0x100 + b[p + 1] as u16
}

fn get32(b: &[u8], p: usize) -> (r: u32)
    requires
        fits(b@, p as int, 4),
        p + 4 <= usize::MAX,
    ensures
        r as int == be32(b@, p as int),
{
    get16(b, p) as u32 * 0x10000 + get16(b, p + 2) as u32
}

fn get64(b: &[u8], p: usize) -> (r: u64)
    requires
        fits(b@, p as int, 8),
        p + 8 <= usize::MAX,
    ensures
        r as int == be64(b@, p as int),
{
    get32(b, p) as u64 * 0x1_0000_0000 + get32(b, p + 4) as u64
}

pub fn read_uint8(b: &[u8], pos: &mut usize) -> (r: Result<u8, DecodeError>)
    ensures
        match r {
            Ok(v) => fits(b@, *old(pos) as int, 1) && v == b@[*old(pos) as int] && *final(pos)
                == *old(pos) + 1,
            Err(e) => !fits(b@, *old(pos) as int, 1) && e == DecodeError::MalformedInput
                && *final(pos) == *old(pos),
        },
{
    let p = take(b, pos, 1)?;
    Ok(b[p])
}

pub fn read_uint16(b: &[u8], pos: &mut usize) -> (r: Result<u16, DecodeError>)
    ensures
        match r {
            Ok(v) => fits(b@, *old(pos) as int, 2) && v as int == be16(b@, *old(pos) as int)
                && *final(pos) == *old(pos) + 2,
            Err(e) => !fits(b@, *old(pos) as int, 2) && e == DecodeError::MalformedInput
                && *final(pos) == *old(pos),
        },
{
    let p = take(b, pos, 2)?;
    Ok(get16(b, p))
}

pub fn read_int8(b: &[u8], pos: &mut usize) -> (r: Result<i8, DecodeError>)
    ensures
        match r {
            Ok(v) => fits(b@, *old(pos) as int, 1) && v as int == twos(
                b@[*old(pos) as int] as int,
                0x100,
            ) && *final(pos) == *old(pos) + 1,
            Err(e) => !fits(b@, *old(pos) as int, 1) && e == DecodeError::MalformedInput
                && *final(pos) == *old(pos),
        },
{
    let u = read_uint8(b, pos)?;
    if u >= 0x80 {
        Ok((u as i16 - 0x100) as i8)
    } else {
        Ok(u as i8)
    }
}

pub fn read_int16(b: &[u8], pos: &mut usize) -> (r: Result<i16, DecodeError>)
    ensures
        match r {
            Ok(v) => fits(b@, *old(pos) as int, 2) && v as int == twos(
                be16(b@, *old(pos) as int),
                0x10000,
            ) && *final(pos) == *old(pos) + 2,
            Err(e) => !fits(b@, *old(pos) as int, 2) && e == DecodeError::MalformedInput
                && *final(pos) == *old(pos),
        },
{
    let u = read_uint16(b, pos)?;
    if u >= 0x8000 {
        Ok((u as i32 - 0x10000) as i16)
    } else {
        Ok(u as i16)
    }
}

pub fn read_uint24(b: &[u8], pos: &mut usize) -> (r: Result<u32, DecodeError>)
    ensures
        match r {
            Ok(v) => fits(b@, *old(pos) as int, 3) && v as int == be24(b@, *old(pos) as int)
                && *final(pos) == *old(pos) + 3,
            Err(e) => !fits(b@, *old(pos) as int, 3) && e == DecodeError::MalformedInput
                && *final(pos) == *old(pos),
        },
{
    let p = take(b, pos, 3)?;
    Ok(b[p] as u32 * 0x10000 + get16(b, p + 1) as u32)
}

pub fn read_uint32(b: &[u8], pos: &mut usize) -> (r: Result<u32, DecodeError>)
    ensures
        match r {
            Ok(v) => fits(b@, *old(pos) as int, 4) && v as int == be32(b@, *old(pos) as int)
                && *final(pos) == *old(pos) + 4,
            Err(e) => !fits(b@, *old(pos) as int, 4) && e == DecodeError::MalformedInput
                && *final(pos) == *old(pos),
        },
{
    let p = take(b, pos, 4)?;
    Ok(get32(b, p))
}

pub fn read_int32(b: &[u8], pos: &mut usize) -> (r: Result<i32, DecodeError>)
    ensures
        match r {
            Ok(v) => fits(b@, *old(pos) as int, 4) && v as int == twos(
                be32(b@, *old(pos) as int),
                0x1_0000_0000,
            ) && *final(pos) == *old(pos) + 4,
            Err(e) => !fits(b@, *old(pos) as int, 4) && e == DecodeError::MalformedInput
                && *final(pos) == *old(pos),
        },
{
    let u = read_uint32(b, pos)?;
    if u >= 0x8000_0000 {
        Ok((u as i64 - 0x1_0000_0000) as i32)
    } else {
        Ok(u as i32)
    }
}

pub fn read_tag(b: &[u8], pos: &mut usize) -> (r: Result<Tag, DecodeError>)
    ensures
        match r {
            Ok(t) => fits(b@, *old(pos) as int, 4) && t.0@ == b@.subrange(
                *old(pos) as int,
                *old(pos) + 4,
            ) && *final(pos) == *old(pos) + 4,
            Err(e) => !fits(b@, *old(pos) as int, 4) && e == DecodeError::MalformedInput
                && *final(pos) == *old(pos),
        },
{
    let p = take(b, pos, 4)?;
    let t = Tag([b[p], b[p + 1], b[p + 2], b[p + 3]]);
    assert(t.0@ =~= b@.subrange(p as int, p + 4));
    Ok(t)
}

pub fn read_offset8(b: &[u8], pos: &mut usize) -> (r: Result<Offset8, DecodeError>)
    ensures
        match r {
            Ok(v) => fits(b@, *old(pos) as int, 1) && v == b@[*old(pos) as int] && *final(pos)
                == *old(pos) + 1,
            Err(e) => !fits(b@, *old(pos) as int, 1) && e == DecodeError::MalformedInput
                && *final(pos) == *old(pos),
        },
{
    read_uint8(b, pos)
}

pub fn read_offset16(b: &[u8], pos: &mut usize) -> (r: Result<Offset16, DecodeError>)
    ensures
        match r {
            Ok(v) => fits(b@, *old(pos) as int, 2) && v as int == be16(b@, *old(pos) as int)
                && *final(pos) == *old(pos) + 2,
            Err(e) => !fits(b@, *old(pos) as int, 2) && e == DecodeError::MalformedInput
                && *final(pos) == *old(pos),
        },
{
    read_uint16(b, pos)
}

pub fn read_offset24(b: &[u8], pos: &mut usize) -> (r: Result<Offset24, DecodeError>)
    ensures
        match r {
            Ok(v) => fits(b@, *old(pos) as int, 3) && v as int == be24(b@, *old(pos) as int)
                && *final(pos) == *old(pos) + 3,
            Err(e) => !fits(b@, *old(pos) as int, 3) && e == DecodeError::MalformedInput
                && *final(pos) == *old(pos),
        },
{
    read_uint24(b, pos)
}

pub fn read_offset32(b: &[u8], pos: &mut usize) -> (r: Result<Offset32, DecodeError>)
    ensures
        match r {
            Ok(v) => fits(b@, *old(pos) as int, 4) && v as int == be32(b@, *old(pos) as int)
                && *final(pos) == *old(pos) + 4,
            Err(e) => !fits(b@, *old(pos) as int, 4) && e == DecodeError::MalformedInput
                && *final(pos) == *old(pos),
        },
{
    read_uint32(b, pos)
}

pub fn read_version16dot16(b: &[u8], pos: &mut usize) -> (r: Result<Version16Dot16, DecodeError>)
    ensures
        match r {
            Ok(v) => fits(b@, *old(pos) as int, 4) && v.0@[0] as int == be16(
                b@,
                *old(pos) as int,
            ) && v.0@[1] as int == be16(b@, *old(pos) + 2) && *final(pos) == *old(pos) + 4,
            Err(e) => !fits(b@, *old(pos) as int, 4) && e == DecodeError::MalformedInput
                && *final(pos) == *old(pos),
        },
{
    let p = take(b, pos, 4)?;
    Ok(Version16Dot16([get16(b, p), get16(b, p + 2)]))
}

pub fn read_fixed(b: &[u8], pos: &mut usize) -> (r: Result<Fixed, DecodeError>)
    ensures
        match r {
            Ok(v) => fits(b@, *old(pos) as int, 4) && v.0 as int == twos(
                be32(b@, *old(pos) as int),
                0x1_0000_0000,
            ) && *final(pos) == *old(pos) + 4,
            Err(e) => !fits(b@, *old(pos) as int, 4) && e == DecodeError::MalformedInput
                && *final(pos) == *old(pos),
        },
{
    let raw = read_int32(b, pos)?;
    Ok(Fixed(raw))
}

pub fn read_longdatetime(b: &[u8], pos: &mut usize) -> (r: Result<LongDateTime, DecodeError>)
    ensures
        match r {
            Ok(v) => fits(b@, *old(pos) as int, 8) && v.0 as int == twos(
                be64(b@, *old(pos) as int),
                0x1_0000_0000_0000_0000,
            ) && *final(pos) == *old(pos) + 8,
            Err(e) => !fits(b@, *old(pos) as int, 8) && e == DecodeError::MalformedInput
                && *final(pos) == *old(pos),
        },
{
    let p = take(b, pos, 8)?;
    let u = get64(b, p);
    if u >= 0x8000_0000_0000_0000 {
        Ok(LongDateTime((u as i128 - 0x1_0000_0000_0000_0000) as i64))
    } else {
        Ok(LongDateTime(u as i64))
    }
}

/// The description of a platform identifier.
pub open spec fn platform_desc(platform_id: u16) -> Seq<char> {
    match platform_id {
        0 => "Unicode"@,
        1 => "Macintosh"@,
        2 => "ISO [deprecated]"@,
        3 => "Windows"@,
        4 => "Custom"@,
        _ => "error platform id"@,
    }
}

/// Describes a platform identifier; unknown ones get "error platform id".
pub fn get_platform_desc(platform_id: u16) -> (r: &'static str)
    ensures
        r@ == platform_desc(platform_id),
{
    match platform_id {
        0 => "Unicode",
        1 => "Macintosh",
        2 => "ISO [deprecated]",
        3 => "Windows",
        4 => "Custom",
        _ => "error platform id",
    }
}

/// The description of an encoding identifier under a platform.
pub open spec fn encoding_desc(platform_id: u16, encoding_id: u16) -> Seq<char> {
    match platform_id {
        0 => match encoding_id {
            0 => "Unicode 1.0 semantics—deprecated"@,
            1 => "Unicode 1.1 semantics—deprecated"@,
            2 => "ISO/IEC 10646 semantics—deprecated"@,
            3 => "Unicode 2.0 and onwards semantics, Unicode BMP only"@,
            4 => "Unicode 2.0 and onwards semantics, Unicode full repertoire"@,
            5 => "Unicode variation sequences—for use with subtable format 14"@,
            6 => "Unicode full repertoire—for use with subtable format 13"@,
            _ => "error encoding id"@,
        },
        1 => match encoding_id {
            0 => "Roman"@,
            1 => "Japanese"@,
            2 => "Chinese (Traditional)"@,
            3 => "Korean"@,
            4 => "Arabic"@,
            5 => "Hebrew"@,
            6 => "Greek"@,
            7 => "Russian"@,
            8 => "RSymbol"@,
            9 => "Devanagari"@,
            10 => "Gurmukhi"@,
            11 => "Gujarati"@,
            12 => "Odia"@,
            13 => "Bangla"@,
            14 => "Tamil"@,
            15 => "Telugu"@,
            16 => "Kannada"@,
            17 => "Malayalam"@,
            18 => "Sinhalese"@,
            19 => "Burmese"@,
            20 => "Khmer"@,
            21 => "Thai"@,
            22 => "Laotian"@,
            23 => "Georgian"@,
            24 => "Armenian"@,
            25 => "Chinese (Simplified)"@,
            26 => "Tibetan"@,
            27 => "Mongolian"@,
            28 => "Geez"@,
            29 => "Slavic"@,
            30 => "Vietnamese"@,
            31 => "Sindhi"@,
            32 => "Uninterpreted"@,
            _ => "error encoding id"@,
        },
        3 => match encoding_id {
            0 => "Symbol"@,
            1 => "Unicode BMP"@,
            2 => "ShiftJIS"@,
            3 => "PRC"@,
            4 => "Big5"@,
            5 => "Wansung"@,
            6 => "Johab"@,
            7 => "Reserved"@,
            8 => "Reserved"@,
            9 => "Reserved"@,
            10 => "Unicode full repertoire"@,
            _ => "error encoding id"@,
        },
        _ => "error platform id"@,
    }
}

/// Describes an encoding identifier under a platform.
pub fn get_encoding_desc(platform_id: u16, encoding_id: u16) -> (r: &'static str)
    ensures
        r@ == encoding_desc(platform_id, encoding_id),
{
    match platform_id {
        0 => match encoding_id {
            0 => "Unicode 1.0 semantics—deprecated",
            1 => "Unicode 1.1 semantics—deprecated",
            2 => "ISO/IEC 10646 semantics—deprecated",
            3 => "Unicode 2.0 and onwards semantics, Unicode BMP only",
            4 => "Unicode 2.0 and onwards semantics, Unicode full repertoire",
            5 => "Unicode variation sequences—for use with subtable format 14",
            6 => "Unicode full repertoire—for use with subtable format 13",
            _ => "error encoding id",
        },
        1 => match encoding_id {
            0 => "Roman",
            1 => "Japanese",
            2 => "Chinese (Traditional)",
            3 => "Korean",
            4 => "Arabic",
            5 => "Hebrew",
            6 => "Greek",
            7 => "Russian",
            8 => "RSymbol",
            9 => "Devanagari",
            10 => "Gurmukhi",
            11 => "Gujarati",
            12 => "Odia",
            13 => "Bangla",
            14 => "Tamil",
            15 => "Telugu",
            16 => "Kannada",
            17 => "Malayalam",
            18 => "Sinhalese",
            19 => "Burmese",
            20 => "Khmer",
            21 => "Thai",
            22 => "Laotian",
            23 => "Georgian",
            24 => "Armenian",
            25 => "Chinese (Simplified)",
            26 => "Tibetan",
            27 => "Mongolian",
            28 => "Geez",
            29 => "Slavic",
            30 => "Vietnamese",
            31 => "Sindhi",
            32 => "Uninterpreted",
            _ => "error encoding id",
        },
        3 => match encoding_id {
            0 => "Symbol",
            1 => "Unicode BMP",
            2 => "ShiftJIS",
            3 => "PRC",
            4 => "Big5",
            5 => "Wansung",
            6 => "Johab",
            7 => "Reserved",
            8 => "Reserved",
            9 => "Reserved",
            10 => "Unicode full repertoire",
            _ => "error encoding id",
        },
        _ => "error platform id",
    }
}

/// The description of a language identifier under a platform.
pub open spec fn language_desc(platform_id: u16, language_id: u16) -> Seq<char> {
    match platform_id {
        0 => "None"@,
        1 => match language_id {
            0 => "English"@,
            1 => "French"@,
            2 => "German"@,
            3 => "Italian"@,
            4 => "Dutch"@,
            5 => "Swedish"@,
            6 => "Spanish"@,
            11 => "Japanese"@,
            19 => "Chinese (traditional)"@,
            23 => "Korean"@,
            32 => "Russian"@,
            33 => "Chinese (simplified)"@,
            51 => "Armenian"@,
            _ => "error language id"@,
        },
        3 => match language_id {
            0x0009 => "English(en)"@,
            0x0409 => "English(en-US)"@,
            0x0004 => "Chinese (Simplified)(zh-Hans)"@,
            0x7804 => "Chinese (Simplified)(zh)"@,
            0x0804 => "Chinese (Simplified)(zh-CN)"@,
            0x1004 => "Chinese (Simplified)(zh-SG)"@,
            0x7C04 => "Chinese (Traditional)(zh-Hant)"@,
            0x0C04 => "Chinese (Traditional)(zh-HK)"@,
            0x1404 => "Chinese (Traditional)(zh-MO)"@,
            0x0404 => "Chinese (Traditional)(zh-TW)"@,
            _ => "error language id"@,
        },
        _ => "error platform id"@,
    }
}

/// Describes a language identifier under a platform.
pub fn get_language_desc(platform_id: u16, language_id: u16) -> (r: &'static str)
    ensures
        r@ == language_desc(platform_id, language_id),
{
    match platform_id {
        0 => "None",
        1 => match language_id {
            0 => "English",
            1 => "French",
            2 => "German",
            3 => "Italian",
            4 => "Dutch",
            5 => "Swedish",
            6 => "Spanish",
            11 => "Japanese",
            19 => "Chinese (traditional)",
            23 => "Korean",
            32 => "Russian",
            33 => "Chinese (simplified)",
            51 => "Armenian",
            _ => "error language id",
        },
        3 => match language_id {
            0x0009 => "English(en)",
            0x0409 => "English(en-US)",
            0x0004 => "Chinese (Simplified)(zh-Hans)",
            0x7804 => "Chinese (Simplified)(zh)",
            0x0804 => "Chinese (Simplified)(zh-CN)",
            0x1004 => "Chinese (Simplified)(zh-SG)",
            0x7C04 => "Chinese (Traditional)(zh-Hant)",
            0x0C04 => "Chinese (Traditional)(zh-HK)",
            0x1404 => "Chinese (Traditional)(zh-MO)",
            0x0404 => "Chinese (Traditional)(zh-TW)",
            _ => "error language id",
        },
        _ => "error platform id",
    }
}

} // verus!
