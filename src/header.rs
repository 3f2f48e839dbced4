//! The fixed-size header record at the start of a song file.
use vstd::prelude::*;
use crate::word::{be16, be32, read_be16, read_be32};
use crate::MdatLoadError;

verus! {

/// Length of one row of song text.
pub const TEXT_ROW_LEN: usize = 40;
/// Number of rows of song text.
pub const TEXT_ROWS: usize = 6;
/// Number of subsong slots.
pub const MAX_SONGS: usize = 32;
/// Size in bytes of the header record.
pub const HEADER_LEN: usize = 512;

pub const TEXT_AT: usize = 16;
pub const STARTS_AT: usize = 256;
pub const ENDS_AT: usize = 320;
pub const TEMPOS_AT: usize = 384;
pub const TRACKSTART_AT: usize = 464;
pub const PATTSTART_AT: usize = 468;
pub const MACROSTART_AT: usize = 472;

/// Default word offset of the track table.
pub const DEFAULT_TRACK_START: usize = 0x180;
/// Default word offset of the pattern table.
pub const DEFAULT_PATT_START: usize = 0x80;
/// Default word offset of the macro table.
pub const DEFAULT_MACRO_START: usize = 0x100;

/// Parsed header of a song file.
#[derive(Debug)]
pub struct Header {
    pub text: Vec<u8>,
    pub song_starts: Vec<u16>,
    pub song_ends: Vec<u16>,
    pub song_tempos: Vec<u16>,
    pub track_start: usize,
    pub patt_start: usize,
    pub macro_start: usize,
}

/// The word offset that a raw big-endian offset field stands for: a byte
/// offset counted from 0x200, divided by four, or `dflt` when the field is 0.
pub open spec fn offset_of(raw: u32, dflt: usize) -> int {
    if raw == 0 {
        dflt as int
    } else if raw >= 0x200 {
        (raw - 0x200) / 4
    } else {
        (raw + 0x1_0000_0000 - 0x200) / 4
    }
}

/// The big-endian 16-bit value at byte `at` of `b`.
pub open spec fn be16_at(b: Seq<u8>, at: int) -> u16 {
    be16(b[at], b[at + 1])
}

/// The big-endian 32-bit value at byte `at` of `b`.
pub open spec fn be32_at(b: Seq<u8>, at: int) -> u32 {
    be32(b[at], b[at + 1], b[at + 2], b[at + 3])
}

/// Whether the ten magic bytes name one of the accepted file signatures.
pub open spec fn magic_ok(b: Seq<u8>) -> bool {
    b.subrange(0, 9) == seq![0x54u8, 0x46, 0x4d, 0x58, 0x2d, 0x53, 0x4f, 0x4e, 0x47]
    || b.subrange(0, 9) == seq![0x54u8, 0x46, 0x4d, 0x58, 0x5f, 0x53, 0x4f, 0x4e, 0x47]
    || (forall|i: int| 0 <= i < 8 ==> ascii_lower(#[trigger] b[i]) == seq![
        0x74u8, 0x66, 0x6d, 0x78, 0x73, 0x6f, 0x6e, 0x67][i])
    || b.subrange(0, 4) == seq![0x54u8, 0x46, 0x4d, 0x58]
}

/// ASCII lower case of a byte.
pub open spec fn ascii_lower(c: u8) -> u8 {
    if 0x41 <= c <= 0x5a { (c + 32) as u8 } else { c }
}

impl Header {
    pub open spec fn wf(&self) -> bool {
        &&& self.text@.len() == TEXT_ROWS * TEXT_ROW_LEN
        &&& self.song_starts@.len() == MAX_SONGS
        &&& self.song_ends@.len() == MAX_SONGS
        &&& self.song_tempos@.len() == MAX_SONGS
    }

    /// The header that the record `b` describes.
    pub open spec fn parsed(&self, b: Seq<u8>) -> bool {
        &&& self.wf()
        &&& self.text@ == b.subrange(TEXT_AT as int, STARTS_AT as int)
        &&& forall|i: int| 0 <= i < MAX_SONGS ==> {
            &&& #[trigger] self.song_starts@[i] == be16_at(b, STARTS_AT + 2 * i)
            &&& self.song_ends@[i] == be16_at(b, ENDS_AT + 2 * i)
            &&& self.song_tempos@[i] == be16_at(b, TEMPOS_AT + 2 * i)
        }
        &&& self.track_start == offset_of(be32_at(b, TRACKSTART_AT as int), DEFAULT_TRACK_START)
        &&& self.patt_start == offset_of(be32_at(b, PATTSTART_AT as int), DEFAULT_PATT_START)
        &&& self.macro_start == offset_of(be32_at(b, MACROSTART_AT as int), DEFAULT_MACRO_START)
    }

    /// Parses the header record at the start of `bytes`.
    pub fn from_bytes(bytes: &[u8]) -> (r: Result<Header, MdatLoadError>)
        ensures
            bytes@.len() < HEADER_LEN ==> r == Err::<Header, MdatLoadError>(MdatLoadError::IoError),
            bytes@.len() >= HEADER_LEN && !magic_ok(bytes@) ==> r == Err::<Header, MdatLoadError>(
                MdatLoadError::MagicMismatch),
            bytes@.len() >= HEADER_LEN && magic_ok(bytes@) ==> r is Ok && r->Ok_0.parsed(bytes@),
    {
        if bytes.len() < HEADER_LEN {
            return Err(MdatLoadError::IoError);
        }
        if !check_magic(bytes) {
            return Err(MdatLoadError::MagicMismatch);
        }
        let mut text: Vec<u8> = Vec::new();
        let mut i: usize = TEXT_AT;
        while i < STARTS_AT
            invariant
                TEXT_AT <= i <= STARTS_AT,
                bytes@.len() >= HEADER_LEN,
                text@ == bytes@.subrange(TEXT_AT as int, i as int),
            decreases STARTS_AT - i,
        {
            text.push(bytes[i]);
            i = i + 1;
        }
        let mut song_starts: Vec<u16> = Vec::new();
        let mut song_ends: Vec<u16> = Vec::new();
        let mut song_tempos: Vec<u16> = Vec::new();
        let mut k: usize = 0;
        while k < MAX_SONGS
            invariant
                k <= MAX_SONGS,
                bytes@.len() >= HEADER_LEN,
                song_starts@.len() == k,
                song_ends@.len() == k,
                song_tempos@.len() == k,
                forall|j: int| 0 <= j < k ==> {
                    &&& #[trigger] song_starts@[j] == be16_at(bytes@, STARTS_AT + 2 * j)
                    &&& song_ends@[j] == be16_at(bytes@, ENDS_AT + 2 * j)
                    &&& song_tempos@[j] == be16_at(bytes@, TEMPOS_AT + 2 * j)
                },
            decreases MAX_SONGS - k,
        {
            song_starts.push(read_be16(bytes, STARTS_AT + 2 * k));
            song_ends.push(read_be16(bytes, ENDS_AT + 2 * k));
            song_tempos.push(read_be16(bytes, TEMPOS_AT + 2 * k));
            k = k + 1;
        }
        let h = Header {
            text,
            song_starts,
            song_ends,
            song_tempos,
            track_start: table_offset(read_be32(bytes, TRACKSTART_AT), DEFAULT_TRACK_START),
            patt_start: table_offset(read_be32(bytes, PATTSTART_AT), DEFAULT_PATT_START),
            macro_start: table_offset(read_be32(bytes, MACROSTART_AT), DEFAULT_MACRO_START),
        };
        Ok(h)
    }
}

/// Converts a raw offset field into a word offset into the program image.
pub fn table_offset(raw: u32, dflt: usize) -> (r: usize)
    ensures
        r == offset_of(raw, dflt),
{
    if raw == 0 {
        dflt
    } else {
        let d = raw.wrapping_sub(0x200);
        assert((d >> 2u32) == d / 4) by (bit_vector);
        (d >> 2u32) as usize
    }
}

fn check_magic(b: &[u8]) -> (r: bool)
    requires
        b@.len() >= HEADER_LEN,
    ensures
        r == magic_ok(b@),
{
    let dash = b[0] == 0x54 && b[1] == 0x46 && b[2] == 0x4d && b[3] == 0x58 && b[4] == 0x2d
        && b[5] == 0x53 && b[6] == 0x4f && b[7] == 0x4e && b[8] == 0x47;
    let under = b[0] == 0x54 && b[1] == 0x46 && b[2] == 0x4d && b[3] == 0x58 && b[4] == 0x5f
        && b[5] == 0x53 && b[6] == 0x4f && b[7] == 0x4e && b[8] == 0x47;
    let lower = to_lower(b[0]) == 0x74 && to_lower(b[1]) == 0x66 && to_lower(b[2]) == 0x6d
        && to_lower(b[3]) == 0x78 && to_lower(b[4]) == 0x73 && to_lower(b[5]) == 0x6f
        && to_lower(b[6]) == 0x6e && to_lower(b[7]) == 0x67;
    let short = b[0] == 0x54 && b[1] == 0x46 && b[2] == 0x4d && b[3] == 0x58;
    let ghost s = b@;
    assert(dash == (s.subrange(0, 9) == seq![0x54u8, 0x46, 0x4d, 0x58, 0x2d, 0x53, 0x4f, 0x4e, 0x47])) by {
        if dash {
            assert(s.subrange(0, 9) =~= seq![0x54u8, 0x46, 0x4d, 0x58, 0x2d, 0x53, 0x4f, 0x4e, 0x47]);
        }
        if s.subrange(0, 9) == seq![0x54u8, 0x46, 0x4d, 0x58, 0x2d, 0x53, 0x4f, 0x4e, 0x47] {
            assert(s.subrange(0, 9)[4] == s[4]);
        }
    }
    assert(under == (s.subrange(0, 9) == seq![0x54u8, 0x46, 0x4d, 0x58, 0x5f, 0x53, 0x4f, 0x4e, 0x47])) by {
        if under {
            assert(s.subrange(0, 9) =~= seq![0x54u8, 0x46, 0x4d, 0x58, 0x5f, 0x53, 0x4f, 0x4e, 0x47]);
        }
        if s.subrange(0, 9) == seq![0x54u8, 0x46, 0x4d, 0x58, 0x5f, 0x53, 0x4f, 0x4e, 0x47] {
            assert(s.subrange(0, 9)[4] == s[4]);
        }
    }
    assert(short == (s.subrange(0, 4) == seq![0x54u8, 0x46, 0x4d, 0x58])) by {
        if short {
            assert(s.subrange(0, 4) =~= seq![0x54u8, 0x46, 0x4d, 0x58]);
        }
        if s.subrange(0, 4) == seq![0x54u8, 0x46, 0x4d, 0x58] {
            assert(s.subrange(0, 4)[3] == s[3]);
        }
    }
    let ghost name = seq![0x74u8, 0x66, 0x6d, 0x78, 0x73, 0x6f, 0x6e, 0x67];
    assert(lower == (forall|i: int| 0 <= i < 8 ==> ascii_lower(#[trigger] s[i]) == name[i])) by {
        if !lower {
            if ascii_lower(s[0]) != name[0] {} else if ascii_lower(s[1]) != name[1] {}
            else if ascii_lower(s[2]) != name[2] {} else if ascii_lower(s[3]) != name[3] {}
            else if ascii_lower(s[4]) != name[4] {} else if ascii_lower(s[5]) != name[5] {}
            else if ascii_lower(s[6]) != name[6] {} else { assert(ascii_lower(s[7]) != name[7]); }
        }
    }
    dash || under || lower || short
}

fn to_lower(c: u8) -> (r: u8)
    ensures
        r == ascii_lower(c),
{
    if 0x41 <= c && c <= 0x5a { c + 32 } else { c }
}

} // verus!

verus! {

/// The four big-endian bytes of `x`.
pub open spec fn be32_bytes(x: u32) -> Seq<u8> {
    seq![(x >> 24u32) as u8, ((x >> 16u32) & 0xff) as u8, ((x >> 8u32) & 0xff) as u8, (x & 0xff) as u8]
}

proof fn lemma_be32_bytes(x: u32)
    ensures
        be32((x >> 24u32) as u8, ((x >> 16u32) & 0xff) as u8, ((x >> 8u32) & 0xff) as u8, (x & 0xff) as u8) == x,
{
    assert(((x >> 24u32) as u8) as u32 == x >> 24u32) by (bit_vector);
    assert((((x >> 16u32) & 0xff) as u8) as u32 == (x >> 16u32) & 0xff) by (bit_vector);
    assert((((x >> 8u32) & 0xff) as u8) as u32 == (x >> 8u32) & 0xff) by (bit_vector);
    assert(((x & 0xff) as u8) as u32 == x & 0xff) by (bit_vector);
    assert((x >> 24u32) * 0x100_0000 + ((x >> 16u32) & 0xff) * 0x1_0000 + ((x >> 8u32) & 0xff) * 0x100
        + (x & 0xff) == x) by (bit_vector);
}

/// Round trip of the header's table offsets: a record whose three offset
/// fields hold the big-endian bytes of `tr`, `pa` and `ma` parses to the word
/// offsets that the formula `(raw - 0x200) >> 2` gives, or to the defaults
/// 0x180, 0x80 and 0x100 where a field is zero.
pub proof fn lemma_header_offsets_round_trip(b: Seq<u8>, h: Header, tr: u32, pa: u32, ma: u32)
    requires
        b.len() >= HEADER_LEN,
        h.parsed(b),
        b.subrange(TRACKSTART_AT as int, TRACKSTART_AT + 4) == be32_bytes(tr),
        b.subrange(PATTSTART_AT as int, PATTSTART_AT + 4) == be32_bytes(pa),
        b.subrange(MACROSTART_AT as int, MACROSTART_AT + 4) == be32_bytes(ma),
    ensures
        h.track_start == if tr == 0 { 0x180 } else { (tr.wrapping_sub(0x200) >> 2u32) as int },
        h.patt_start == if pa == 0 { 0x80 } else { (pa.wrapping_sub(0x200) >> 2u32) as int },
        h.macro_start == if ma == 0 { 0x100 } else { (ma.wrapping_sub(0x200) >> 2u32) as int },
{
    lemma_be32_bytes(tr);
    lemma_be32_bytes(pa);
    lemma_be32_bytes(ma);
    assert(b[TRACKSTART_AT as int] == b.subrange(TRACKSTART_AT as int, TRACKSTART_AT + 4)[0]);
    assert(b[TRACKSTART_AT + 1] == b.subrange(TRACKSTART_AT as int, TRACKSTART_AT + 4)[1]);
    assert(b[TRACKSTART_AT + 2] == b.subrange(TRACKSTART_AT as int, TRACKSTART_AT + 4)[2]);
    assert(b[TRACKSTART_AT + 3] == b.subrange(TRACKSTART_AT as int, TRACKSTART_AT + 4)[3]);
    assert(b[PATTSTART_AT as int] == b.subrange(PATTSTART_AT as int, PATTSTART_AT + 4)[0]);
    assert(b[PATTSTART_AT + 1] == b.subrange(PATTSTART_AT as int, PATTSTART_AT + 4)[1]);
    assert(b[PATTSTART_AT + 2] == b.subrange(PATTSTART_AT as int, PATTSTART_AT + 4)[2]);
    assert(b[PATTSTART_AT + 3] == b.subrange(PATTSTART_AT as int, PATTSTART_AT + 4)[3]);
    assert(b[MACROSTART_AT as int] == b.subrange(MACROSTART_AT as int, MACROSTART_AT + 4)[0]);
    assert(b[MACROSTART_AT + 1] == b.subrange(MACROSTART_AT as int, MACROSTART_AT + 4)[1]);
    assert(b[MACROSTART_AT + 2] == b.subrange(MACROSTART_AT as int, MACROSTART_AT + 4)[2]);
    assert(b[MACROSTART_AT + 3] == b.subrange(MACROSTART_AT as int, MACROSTART_AT + 4)[3]);
    assert(forall|x: u32| x >= 0x200 ==> (x.wrapping_sub(0x200) >> 2u32) == (x - 0x200) / 4) by {
        assert forall|x: u32| x >= 0x200 implies (x.wrapping_sub(0x200) >> 2u32) == (x - 0x200) / 4 by {
            let y = x.wrapping_sub(0x200);
            assert(y >> 2u32 == y / 4) by (bit_vector);
        }
    }
    assert(forall|x: u32| x < 0x200 ==> (x.wrapping_sub(0x200) >> 2u32) == (x + 0x1_0000_0000 - 0x200) / 4) by {
        assert forall|x: u32| x < 0x200 implies (x.wrapping_sub(0x200) >> 2u32) == (x + 0x1_0000_0000 - 0x200) / 4 by {
            let y = x.wrapping_sub(0x200);
            assert(y >> 2u32 == y / 4) by (bit_vector);
        }
    }
}

} // verus!
