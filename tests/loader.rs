use tfmxr::ctx::TfmxCtx;
use tfmxr::loader::{fixup_table, load_mdat};
use tfmxr::state::EDITBUF_LEN;
use tfmxr::MdatLoadError;

fn file(words: &[u32]) -> Vec<u8> {
    let mut b = vec![0u8; 512];
    b[..10].copy_from_slice(b"TFMX-SONG ");
    for w in words {
        b.extend_from_slice(&w.to_be_bytes());
    }
    b
}

fn image(n: usize, entries: &[(usize, u32)]) -> Vec<u32> {
    let mut buf = vec![0u32; EDITBUF_LEN];
    for i in 0..n {
        buf[i] = 0x1234;
    }
    for &(at, v) in entries {
        buf[at] = v;
    }
    buf[n] = u32::MAX;
    buf
}

#[test]
fn fixup_counts_valid_entries() {
    let mut buf = image(200, &[(10, 0x200), (11, 0x204), (12, 0x300), (13, 0x301)]);
    let r = fixup_table(&mut buf, 10, 200);
    assert_eq!(r, Ok(3));
    assert_eq!(buf[10], 0);
    assert_eq!(buf[11], 1);
    assert_eq!(buf[12], 0x40);
    assert_eq!(buf[13], 0x301);
}

#[test]
fn fixup_stops_past_program() {
    let mut buf = image(200, &[(10, 0x200 + 4 * 201)]);
    assert_eq!(fixup_table(&mut buf, 10, 200), Ok(0));
    assert_eq!(buf[10], 0x200 + 4 * 201);
}

#[test]
fn fixup_first_entry_underflow_is_error() {
    let mut buf = image(200, &[(10, 0x1ff)]);
    assert_eq!(fixup_table(&mut buf, 10, 200), Err(MdatLoadError::PreprocessError));
}

#[test]
fn fixup_later_underflow_stops() {
    let mut buf = image(200, &[(10, 0x200), (11, 0x10)]);
    assert_eq!(fixup_table(&mut buf, 10, 200), Ok(1));
}

#[test]
fn fixup_count_at_most_128_and_within_program() {
    let mut entries = Vec::new();
    for i in 0..150 {
        entries.push((i, 0x200 + 4 * (i as u32)));
    }
    let mut buf = image(300, &entries);
    assert_eq!(fixup_table(&mut buf, 0, 300), Ok(128));
    let mut buf = image(140, &entries[..140]);
    let r = fixup_table(&mut buf, 20, 140).unwrap();
    assert!(r <= 128);
    assert!(20 + r <= 140);
    assert_eq!(r, 120);
}

#[test]
fn load_too_small() {
    let mut t = TfmxCtx::new(44100);
    let r = load_mdat(&file(&[0x200; 100]), &mut t);
    assert_eq!(r.unwrap_err(), MdatLoadError::EditBufferTooSmall { size: 100 });
}

#[test]
fn load_bad_magic() {
    let mut t = TfmxCtx::new(44100);
    let mut f = file(&[0x200; 400]);
    f[0] = b'X';
    assert_eq!(load_mdat(&f, &mut t).unwrap_err(), MdatLoadError::MagicMismatch);
}

#[test]
fn load_preprocess_error() {
    let mut t = TfmxCtx::new(44100);
    let words = vec![0u32; 400];
    assert_eq!(load_mdat(&file(&words), &mut t).unwrap_err(), MdatLoadError::PreprocessError);
}

#[test]
fn load_decodes_words_and_terminates() {
    let mut t = TfmxCtx::new(44100);
    let mut words = vec![0x0102_0304u32; 400];
    words[0x100] = 0x200 + 4 * 300;
    words[0x101] = 3;
    words[0x80] = 0x200 + 4 * 350;
    words[0x81] = 3;
    let h = load_mdat(&file(&words), &mut t).unwrap();
    assert_eq!(h.macro_start, 0x100);
    assert_eq!(t.editbuf[0], 0x0102_0304);
    assert_eq!(t.editbuf[0x100], 300);
    assert_eq!(t.editbuf[0x80], 350);
    assert_eq!(t.editbuf[0x101], 3);
    assert_eq!(t.editbuf[400], u32::MAX);
    assert_eq!(t.editbuf[401], 0);
}
