use tfmxr::header::{table_offset, Header, HEADER_LEN};
use tfmxr::MdatLoadError;

fn record(magic: &[u8], offsets: [u32; 3]) -> Vec<u8> {
    let mut b = vec![0u8; HEADER_LEN];
    b[..magic.len()].copy_from_slice(magic);
    for (k, o) in offsets.iter().enumerate() {
        b[464 + 4 * k..468 + 4 * k].copy_from_slice(&o.to_be_bytes());
    }
    b
}

#[test]
fn header_offsets_nonzero_follow_formula() {
    let b = record(b"TFMX-SONG ", [0x800, 0x400, 0x600]);
    let h = Header::from_bytes(&b).unwrap();
    assert_eq!(h.track_start, (0x800 - 0x200) >> 2);
    assert_eq!(h.patt_start, (0x400 - 0x200) >> 2);
    assert_eq!(h.macro_start, (0x600 - 0x200) >> 2);
}

#[test]
fn header_offsets_zero_take_defaults() {
    let b = record(b"TFMX-SONG ", [0, 0, 0]);
    let h = Header::from_bytes(&b).unwrap();
    assert_eq!(h.track_start, 0x180);
    assert_eq!(h.patt_start, 0x80);
    assert_eq!(h.macro_start, 0x100);
}

#[test]
fn header_offset_below_base_wraps() {
    assert_eq!(table_offset(0x100, 0x80), (0x100u32.wrapping_sub(0x200) >> 2) as usize);
    assert_eq!(table_offset(0x204, 0x80), 1);
}

#[test]
fn header_songs_are_big_endian() {
    let mut b = record(b"TFMX_SONG ", [0, 0, 0]);
    b[256] = 0x01;
    b[257] = 0x02;
    b[320 + 62] = 0x00;
    b[320 + 63] = 0x07;
    b[384 + 2] = 0x00;
    b[384 + 3] = 0x10;
    let h = Header::from_bytes(&b).unwrap();
    assert_eq!(h.song_starts[0], 0x0102);
    assert_eq!(h.song_ends[31], 7);
    assert_eq!(h.song_tempos[1], 0x10);
}

#[test]
fn header_magic_variants() {
    assert!(Header::from_bytes(&record(b"TFMX-SONG ", [0, 0, 0])).is_ok());
    assert!(Header::from_bytes(&record(b"TFMX_SONG ", [0, 0, 0])).is_ok());
    assert!(Header::from_bytes(&record(b"tfmxsong  ", [0, 0, 0])).is_ok());
    assert!(Header::from_bytes(&record(b"TfMxSoNg  ", [0, 0, 0])).is_ok());
    assert!(Header::from_bytes(&record(b"TFMX      ", [0, 0, 0])).is_ok());
}

#[test]
fn header_magic_mismatch() {
    let r = Header::from_bytes(&record(b"MDAT-SONG ", [0, 0, 0]));
    assert_eq!(r.unwrap_err(), MdatLoadError::MagicMismatch);
    let r = Header::from_bytes(&record(b"tfmx-song ", [0, 0, 0]));
    assert_eq!(r.unwrap_err(), MdatLoadError::MagicMismatch);
}

#[test]
fn header_too_short() {
    let b = record(b"TFMX-SONG ", [0, 0, 0]);
    assert_eq!(Header::from_bytes(&b[..511]).unwrap_err(), MdatLoadError::IoError);
}

#[test]
fn header_text_rows_filter_blank_and_invalid() {
    let mut b = record(b"TFMX-SONG ", [0, 0, 0]);
    let row0 = b"Hello world";
    b[16..16 + row0.len()].copy_from_slice(row0);
    for i in 0..40 {
        b[16 + 40 + i] = b' ';
    }
    b[16 + 80] = 0xff;
    b[16 + 80 + 1] = b'x';
    b[16 + 120] = b' ';
    b[16 + 121] = 0;
    b[16 + 122] = b'z';
    b[16 + 160] = b' ';
    b[16 + 161] = b'\t';
    let h = Header::from_bytes(&b).unwrap();
    let rows = h.text_rows();
    assert_eq!(rows.len(), 2);
    assert!(rows[0].starts_with("Hello world"));
    assert_eq!(rows[0].len(), 40);
    assert!(rows[1].contains('z'));
}
