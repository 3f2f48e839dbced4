//! Loading a song file: the header, then the program image with its pointer
//! tables turned from byte offsets into word indices.
use vstd::prelude::*;
use vstd::slice::slice_subrange;
use crate::ctx::TfmxCtx;
use crate::header::{be32_at, magic_ok, offset_of, Header, DEFAULT_MACRO_START, DEFAULT_PATT_START, HEADER_LEN, MACROSTART_AT, PATTSTART_AT};
use crate::state::{EDITBUF_LEN, EDITBUF_WORDS};
use crate::word::{be32, read_be32};
use crate::MdatLoadError;

verus! {

/// Most entries of a pointer table.
pub const MAX_TABLE_ENTRIES: usize = 128;
/// Fewest program words a song file must hold.
pub const MIN_PROGRAM_WORDS: usize = 127;
/// Where the program data starts, as a byte offset in pointer-table entries.
pub const PROGRAM_BASE: u32 = 0x200;

/// Whether table entry `v` is a valid pointer into a program of `n` words:
/// at or past the program's base, word aligned, and not past the program.
pub open spec fn entry_ok(v: u32, n: int) -> bool {
    v >= PROGRAM_BASE && (v - PROGRAM_BASE) % 4 == 0 && (v - PROGRAM_BASE) / 4 <= n
}

/// The image after the program of `n` words: the terminator, then zeros.
pub open spec fn tail_clear(buf: Seq<u32>, n: int) -> bool {
    &&& n < buf.len()
    &&& buf[n] == u32::MAX
    &&& forall|j: int| n < j < buf.len() ==> #[trigger] buf[j] == 0
}

/// The pointer table at word `start` of `buf` rewritten from entry `i` on,
/// up to the first entry that is not a valid pointer into a program of `n`
/// words (or 128 entries, or the image's end).
pub open spec fn fixed_from(buf: Seq<u32>, start: int, n: int, i: nat) -> Seq<u32>
    decreases MAX_TABLE_ENTRIES - i,
{
    if i >= MAX_TABLE_ENTRIES || start + i >= buf.len() || !entry_ok(buf[start + i], n) {
        buf
    } else {
        fixed_from(buf.update(start + i, ((buf[start + i] - PROGRAM_BASE) / 4) as u32), start, n, i + 1)
    }
}

/// Rewrites the pointer table at word `start` of `buf` (a program of `n`
/// words) from byte offsets to word indices, up to the first entry that is
/// not a valid pointer, and returns how many entries it rewrote. Fails when
/// the very first entry lies before the program's base.
pub fn fixup_table(buf: &mut Vec<u32>, start: usize, n: usize) -> (r: Result<usize, MdatLoadError>)
    requires
        old(buf)@.len() == EDITBUF_LEN,
        n <= EDITBUF_WORDS,
        tail_clear(old(buf)@, n as int),
    ensures
        final(buf)@.len() == EDITBUF_LEN,
        tail_clear(final(buf)@, n as int),
        r is Err <==> start < EDITBUF_LEN && old(buf)@[start as int] < PROGRAM_BASE,
        r is Err ==> r == Err::<usize, MdatLoadError>(MdatLoadError::PreprocessError),
        r is Ok ==> final(buf)@ == fixed_from(old(buf)@, start as int, n as int, 0),
        r is Ok ==> {
            let k = r->Ok_0;
            &&& k <= MAX_TABLE_ENTRIES
            &&& k > 0 ==> start + k <= n
            &&& forall|j: int| 0 <= j < k ==> entry_ok(#[trigger] old(buf)@[start + j], n as int)
            &&& forall|j: int| 0 <= j < k ==> #[trigger] final(buf)@[start + j]
                == (old(buf)@[start + j] - PROGRAM_BASE) / 4
            &&& k < MAX_TABLE_ENTRIES && start + k < EDITBUF_LEN ==> !entry_ok(old(buf)@[start + k], n as int)
            &&& forall|j: int| 0 <= j < EDITBUF_LEN && !(start <= j < start + k) ==> #[trigger] final(buf)@[j] == old(buf)@[j]
        },
{
    let mut i: usize = 0;
    while i < MAX_TABLE_ENTRIES
        invariant
            i <= MAX_TABLE_ENTRIES,
            buf@.len() == EDITBUF_LEN,
            n <= EDITBUF_WORDS,
            tail_clear(buf@, n as int),
            i > 0 ==> start + i <= n,
            i > 0 ==> !(old(buf)@[start as int] < PROGRAM_BASE),
            forall|j: int| 0 <= j < i ==> entry_ok(#[trigger] old(buf)@[start + j], n as int),
            forall|j: int| 0 <= j < i ==> #[trigger] buf@[start + j] == (old(buf)@[start + j] - PROGRAM_BASE) / 4,
            forall|j: int| 0 <= j < EDITBUF_LEN && !(start <= j < start + i) ==> #[trigger] buf@[j] == old(buf)@[j],
            fixed_from(buf@, start as int, n as int, i as nat) == fixed_from(old(buf)@, start as int, n as int, 0),
        decreases MAX_TABLE_ENTRIES - i,
    {
        let z = start + i;
        if z >= buf.len() {
            return Ok(i);
        }
        let v = buf[z];
        if v < PROGRAM_BASE {
            if i == 0 {
                return Err(MdatLoadError::PreprocessError);
            }
            return Ok(i);
        }
        let y = v - PROGRAM_BASE;
        assert((y & 3) == y % 4 && (y >> 2) == y / 4) by (bit_vector);
        if (y & 3) != 0 || (y >> 2) > n as u32 {
            return Ok(i);
        }
        assert(z < n) by {
            if z >= n {
                assert(buf@[z as int] == old(buf)@[z as int]);
                if z == n {
                    assert(y == 0xffff_fdff);
                } else {
                    assert(v == 0);
                }
            }
        }
        buf.set(z, y >> 2);
        i = i + 1;
    }
    Ok(i)
}

/// The `k`-th big-endian word of `b`, counted from byte `at`.
pub open spec fn word_in(b: Seq<u8>, at: int, k: int) -> u32 {
    be32(b[at + 4 * k], b[at + 4 * k + 1], b[at + 4 * k + 2], b[at + 4 * k + 3])
}

/// The program image that `words` big-endian words of `b` from byte `at`
/// make: the words, the terminator, then zeros.
pub open spec fn program_image(b: Seq<u8>, at: int, words: int) -> Seq<u32> {
    Seq::new(EDITBUF_LEN as nat, |i: int| if i < words { word_in(b, at, i) } else if i == words { u32::MAX } else { 0 })
}

/// How many program words of `file`, whose header record starts at byte
/// `at`, fit in the image.
pub open spec fn image_words(file: Seq<u8>, at: int) -> int {
    let n = (file.len() - at - HEADER_LEN) / 4;
    if n > EDITBUF_WORDS { EDITBUF_WORDS as int } else { n }
}

/// The error that loading `file`, with its header record at byte `at`,
/// ends in, or `None` when it loads: a header cut short, a wrong signature,
/// fewer than `MIN_PROGRAM_WORDS` program words, or a macro table or pattern
/// table whose first entry lies before the program's base.
pub open spec fn load_outcome(file: Seq<u8>, at: int) -> Option<MdatLoadError> {
    let len = file.len() as int;
    if at + HEADER_LEN > len {
        Some(MdatLoadError::IoError)
    } else {
        let b = file.subrange(at, len);
        if !magic_ok(b) {
            Some(MdatLoadError::MagicMismatch)
        } else {
            let words = image_words(file, at);
            if words < MIN_PROGRAM_WORDS {
                Some(MdatLoadError::EditBufferTooSmall { size: words as usize })
            } else {
                let image = program_image(file, at + HEADER_LEN, words);
                let ms = offset_of(be32_at(b, MACROSTART_AT as int), DEFAULT_MACRO_START);
                let ps = offset_of(be32_at(b, PATTSTART_AT as int), DEFAULT_PATT_START);
                if ms < EDITBUF_LEN && image[ms] < PROGRAM_BASE {
                    Some(MdatLoadError::PreprocessError)
                } else if ps < EDITBUF_LEN && fixed_from(image, ms, words, 0)[ps] < PROGRAM_BASE {
                    Some(MdatLoadError::PreprocessError)
                } else {
                    None
                }
            }
        }
    }
}

/// Where the header record of a song file starts for engine `t`.
pub open spec fn header_offset(t: &TfmxCtx) -> int {
    if t.single_file { t.ntfhd_offset as int } else { 0 }
}

/// Loads a song file into `t`'s program image and returns its header. The
/// header record starts at `ntfhd_offset` in a single-file layout and at 0
/// otherwise; the program words follow it, as many as the image holds.
pub fn load_mdat(file: &[u8], t: &mut TfmxCtx) -> (r: Result<Header, MdatLoadError>)
    requires
        old(t).wf(),
        forall|i: int| 0 <= i < EDITBUF_LEN ==> #[trigger] old(t).editbuf@[i] == 0,
    ensures
        final(t).wf(),
        final(t).out_rate == old(t).out_rate,
        final(t).pristine() == old(t).pristine(),
        final(t).single_file == old(t).single_file,
        final(t).ntfhd_offset == old(t).ntfhd_offset,
        load_outcome(file@, header_offset(old(t))) matches Some(e) ==> r == Err::<Header, MdatLoadError>(e),
        load_outcome(file@, header_offset(old(t))) is None ==> r is Ok,
        r is Ok ==> {
            let at = if old(t).single_file { old(t).ntfhd_offset as int } else { 0 };
            let n = ((file@.len() - at - HEADER_LEN) / 4) as int;
            let words = if n > EDITBUF_WORDS { EDITBUF_WORDS as int } else { n };
            let image = program_image(file@, at + HEADER_LEN, words);
            &&& r->Ok_0.parsed(file@.subrange(at, file@.len() as int))
            &&& MIN_PROGRAM_WORDS <= n
            &&& final(t).editbuf@ == fixed_from(
                fixed_from(image, r->Ok_0.macro_start as int, words, 0),
                r->Ok_0.patt_start as int,
                words,
                0,
            )
        },
{
    let at: usize = if t.single_file { t.ntfhd_offset as usize } else { 0 };
    if at > file.len() {
        return Err(MdatLoadError::IoError);
    }
    let rest = slice_subrange(file, at, file.len());
    let header = match Header::from_bytes(rest) {
        Ok(h) => h,
        Err(e) => {
            return Err(e);
        },
    };
    let avail = (rest.len() - HEADER_LEN) / 4;
    let n: usize = if avail > EDITBUF_WORDS { EDITBUF_WORDS } else { avail };
    let mut k: usize = 0;
    while k < n
        invariant
            k <= n,
            n <= EDITBUF_WORDS,
            HEADER_LEN + 4 * n <= rest@.len(),
            t.wf(),
            t.out_rate == old(t).out_rate,
            t.pristine() == old(t).pristine(),
            t.single_file == old(t).single_file,
            t.ntfhd_offset == old(t).ntfhd_offset,
            forall|i: int| k <= i < EDITBUF_LEN ==> #[trigger] t.editbuf@[i] == 0,
            forall|i: int| 0 <= i < k ==> #[trigger] t.editbuf@[i] == word_in(rest@, HEADER_LEN as int, i),
        decreases n - k,
    {
        let w = read_be32(rest, HEADER_LEN + 4 * k);
        t.editbuf.set(k, w);
        k = k + 1;
    }
    t.editbuf.set(n, u32::MAX);
    assert(rest@ == file@.subrange(at as int, file@.len() as int));
    assert forall|i: int| 0 <= i < n implies word_in(rest@, HEADER_LEN as int, i) == #[trigger] word_in(file@, at + HEADER_LEN, i) by {
        assert(rest@[HEADER_LEN + 4 * i] == file@[at + HEADER_LEN + 4 * i]);
        assert(rest@[HEADER_LEN + 4 * i + 1] == file@[at + HEADER_LEN + 4 * i + 1]);
        assert(rest@[HEADER_LEN + 4 * i + 2] == file@[at + HEADER_LEN + 4 * i + 2]);
        assert(rest@[HEADER_LEN + 4 * i + 3] == file@[at + HEADER_LEN + 4 * i + 3]);
    }
    assert(t.editbuf@ =~= program_image(file@, at + HEADER_LEN, n as int));
    assert(n as int == image_words(file@, at as int));
    if n < MIN_PROGRAM_WORDS {
        return Err(MdatLoadError::EditBufferTooSmall { size: n });
    }
    if let Err(e) = fixup_table(&mut t.editbuf, header.macro_start, n) {
        return Err(e);
    }
    if let Err(e) = fixup_table(&mut t.editbuf, header.patt_start, n) {
        return Err(e);
    }
    Ok(header)
}

} // verus!
