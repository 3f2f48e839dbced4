use tfmxr::word::{read_be16, read_be32, U32Be};

#[test]
fn word_bytes_count_from_the_top() {
    let w = U32Be::from_ne(0x1234_5678);
    assert_eq!(w.whole(), 0x1234_5678);
    assert_eq!(w.byte(0), 0x12);
    assert_eq!(w.byte(1), 0x34);
    assert_eq!(w.byte(2), 0x56);
    assert_eq!(w.byte(3), 0x78);
}

#[test]
fn word_halves() {
    let w = U32Be::from_ne(0xabcd_fffe);
    assert_eq!(w.hi(), 0xfffe);
    assert_eq!(w.hi_signed(), -2);
}

#[test]
fn word_from_be_swaps_bytes() {
    assert_eq!(U32Be::from_be(0x1234_5678).whole(), 0x7856_3412);
}

#[test]
fn word_set_byte() {
    let mut w = U32Be::from_ne(0x1234_5678);
    w.set_byte(0, 0xff);
    assert_eq!(w.whole(), 0xff34_5678);
    w.set_byte(3, 0x00);
    assert_eq!(w.whole(), 0xff34_5600);
    w.set_byte(2, 0xaa);
    assert_eq!(w.whole(), 0xff34_aa00);
}

#[test]
fn big_endian_reads() {
    let b = [0x01u8, 0x02, 0x03, 0x04, 0x05];
    assert_eq!(read_be32(&b, 0), 0x0102_0304);
    assert_eq!(read_be32(&b, 1), 0x0203_0405);
    assert_eq!(read_be16(&b, 3), 0x0405);
}
