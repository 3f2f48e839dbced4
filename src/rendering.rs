//! The mixer and the ring buffer of rendered PCM.
use vstd::prelude::*;
use crate::ctx::TfmxCtx;
use crate::header::Header;
use crate::macros::{loop_effect, run_loop_fn};
use vstd::wrapping::i32_specs;
use crate::state::{Cdb, Hdb, MAX_CHANNELS, NUM_CDB};
use crate::tracks::{seq_kept, tfmx_irq_in};

verus! {

/// Capacity of the ring buffer and of the accumulator, in 16-bit samples.
pub const BUFSIZE: usize = 16384;
/// Half of `BUFSIZE`: the accumulator's right-hand half starts here.
pub const HALFBUFSIZE: usize = 8192;
/// Stereo frames in one mixing block.
pub const BLOCKSIZE: usize = 2048;
/// Fractional bits of a voice position.
pub const FRACTION_BITS: u32 = 14;
/// One whole sample step in the fixed-point format.
pub const FRACTION_ONE: u32 = 16384;
/// Timer ticks times half the output rate that make one output sample.
pub const CLOCKS_PER_SAMPLE: u64 = 357_955;
/// Most timer ticks that one call of `try_to_makeblock` runs.
pub const TICK_LIMIT: u32 = 0x10000;

/// The ring buffer of rendered PCM and the accumulator it is made from.
pub struct AudioCtx {
    /// Interleaved 16-bit stereo samples.
    pub buf: Vec<i16>,
    pub bhead: usize,
    pub btail: usize,
    pub blocksize: usize,
    pub multiplier: usize,
    pub e_rem: u64,
    pub blend: bool,
    /// Accumulator: left half at 0, right half at `HALFBUFSIZE`.
    pub tbuf: Vec<i32>,
    pub samples_done: usize,
}

/// The number of samples between tail and head of a ring of `BUFSIZE`.
pub open spec fn ring_len(head: int, tail: int) -> int {
    (head - tail + BUFSIZE) % (BUFSIZE as int)
}

/// The left output of the stereo blend.
pub open spec fn blend_left(l: i32, r: i32) -> i32 {
    (((r as int * 5 + l as int * 11) as i64) >> 4i64) as i32
}

/// The right output of the stereo blend.
pub open spec fn blend_right(l: i32, r: i32) -> i32 {
    (((r as int * 11 + l as int * 5) as i64) >> 4i64) as i32
}

/// Whether a voice's position lies inside its window, or the voice was
/// silenced (position, step and window all zero).
pub open spec fn voice_settled(hw: Hdb) -> bool {
    hw.pos < hw.slen as int * FRACTION_ONE as int || (hw.pos == 0 && hw.delta == 0 && hw.slen == 0)
}

impl AudioCtx {
    pub open spec fn wf(&self) -> bool {
        &&& self.buf@.len() == BUFSIZE
        &&& self.tbuf@.len() == BUFSIZE
        &&& self.bhead < BUFSIZE
        &&& self.btail < BUFSIZE
        &&& self.blocksize == BLOCKSIZE
        &&& self.multiplier == 2
        &&& self.samples_done <= BLOCKSIZE
        &&& self.e_rem <= CLOCKS_PER_SAMPLE
    }

    /// How many samples wait in the ring.
    pub open spec fn available(&self) -> int {
        ring_len(self.bhead as int, self.btail as int)
    }

    /// An empty ring, a cleared accumulator, blending on.
    pub fn new() -> (r: AudioCtx)
        ensures
            r.wf(),
            r.available() == 0,
            r.blend,
            r.samples_done == 0,
            r.e_rem == 0,
            forall|i: int| 0 <= i < BUFSIZE ==> #[trigger] r.tbuf@[i] == 0,
    {
        let mut buf: Vec<i16> = Vec::new();
        let mut tbuf: Vec<i32> = Vec::new();
        let mut i: usize = 0;
        while i < BUFSIZE
            invariant
                i <= BUFSIZE,
                buf@.len() == i,
                tbuf@.len() == i,
                forall|j: int| 0 <= j < i ==> #[trigger] tbuf@[j] == 0,
            decreases BUFSIZE - i,
        {
            buf.push(0);
            tbuf.push(0);
            i = i + 1;
        }
        AudioCtx {
            buf,
            bhead: 0,
            btail: 0,
            blocksize: BLOCKSIZE,
            multiplier: 2,
            e_rem: 0,
            blend: true,
            tbuf,
            samples_done: 0,
        }
    }

    /// Switches the stereo blend on or off.
    pub fn toggle_blend(&mut self)
        ensures
            final(self).blend == !old(self).blend,
            final(self).buf == old(self).buf && final(self).tbuf == old(self).tbuf,
            final(self).bhead == old(self).bhead && final(self).btail == old(self).btail,
            final(self).blocksize == old(self).blocksize && final(self).multiplier == old(self).multiplier,
            final(self).samples_done == old(self).samples_done && final(self).e_rem == old(self).e_rem,
    {
        self.blend = !self.blend;
    }

    pub fn is_blend_on(&self) -> (r: bool)
        ensures
            r == self.blend,
    {
        self.blend
    }
}

/// How many samples wait in the ring: `(head - tail) mod BUFSIZE`.
pub fn available_sound_data(ctx: &AudioCtx) -> (r: usize)
    requires
        ctx.wf(),
    ensures
        r == ctx.available(),
        r < BUFSIZE,
{
    (ctx.bhead + BUFSIZE - ctx.btail) % BUFSIZE
}

} // verus!

verus! {

/// Sample `i` of the window that starts at `beg`, clamped into the sample
/// data: a read past its end takes its last sample (and no data reads as 0).
pub open spec fn sample_at(smpl: Seq<i8>, beg: int, i: int) -> i32 {
    if smpl.len() == 0 {
        0
    } else if 0 <= beg + i < smpl.len() {
        smpl[beg + i] as i32
    } else {
        smpl[smpl.len() - 1] as i32
    }
}

fn read_sample(smpl: &[i8], beg: usize, i: usize) -> (r: i32)
    ensures
        r == sample_at(smpl@, beg as int, i as int),
        -128 <= r <= 127,
{
    if smpl.len() == 0 {
        0
    } else if beg < smpl.len() && i < smpl.len() - beg {
        smpl[beg + i] as i32
    } else {
        smpl[smpl.len() - 1] as i32
    }
}

/// The linear interpolation between `v1` and `v2` at fraction `frac` of
/// `FRACTION_ONE`.
pub open spec fn interpolate(v1: i32, v2: i32, frac: u32) -> i32 {
    (v1 as int + ((((v2 as int - v1 as int) * frac as int) as i32) >> 14i32)) as i32
}

fn interp(v1: i32, v2: i32, frac: u32) -> (r: i32)
    requires
        -128 <= v1 <= 127,
        -128 <= v2 <= 127,
        frac < FRACTION_ONE,
    ensures
        r == interpolate(v1, v2, frac),
        -0x200 <= r <= 0x200,
{
    let d = v2 - v1;
    let f = frac as i32;
    assert(-0x40_0000 <= d * f <= 0x40_0000) by (nonlinear_arith)
        requires -255 <= d <= 255, 0 <= f < 16384;
    let x = d * f;
    let s = x >> 14i32;
    assert(-0x100 <= s <= 0x100) by (bit_vector)
        requires -0x40_0000 <= x <= 0x40_0000, s == x >> 14i32;
    v1 + s
}

/// The mixer's working state for one voice.
pub struct MixState {
    pub hw: Hdb,
    /// Start of the window that plays now.
    pub pbeg: int,
    pub pos: u32,
    /// Length of that window in fixed point.
    pub len: u32,
    pub delta: u32,
    /// The accumulator.
    pub acc: Seq<i32>,
    pub cdb: Seq<Cdb>,
}

/// Mixing samples `k..n` of a voice at volume `vol` into the accumulator at
/// `off`: each sample interpolates between the two neighbouring samples of
/// the window (past the window's end, the loop window's first sample), the
/// position advances by `delta`, and at the window's end the voice rewinds
/// to its loop window and runs its loop behaviour, or falls silent when the
/// loop window is shorter than four samples.
pub open spec fn mix_samples(s: MixState, smpl: Seq<i8>, vol: i32, off: int, k: int, n: int) -> MixState
    decreases n - k,
{
    if k >= n {
        s
    } else {
        let pr = (s.pos >> 14u32) as int;
        let v1 = sample_at(smpl, s.pbeg, pr);
        let v2 = if pr + 1 < s.hw.slen { sample_at(smpl, s.pbeg, pr + 1) } else { sample_at(smpl, s.hw.sample_start as int, 0) };
        let base = interpolate(v1, v2, s.pos & 0x3fff);
        let acc = s.acc.update(off + k, i32_specs::wrapping_add(s.acc[off + k], (vol * base) as i32));
        let np = s.pos as int + s.delta as int;
        if np < s.len {
            mix_samples(MixState { pos: np as u32, acc: acc, ..s }, smpl, vol, off, k + 1, n)
        } else {
            let hw1 = Hdb { slen: s.hw.sample_len, ..s.hw };
            let len1 = s.hw.sample_len as int * FRACTION_ONE as int;
            if len1 < 0x10000 {
                MixState { hw: Hdb { slen: 0, ..hw1 }, pbeg: 0, pos: 0, len: 0, delta: 0, acc: acc, ..s }
            } else {
                let le = loop_effect(hw1, s.cdb);
                mix_samples(MixState {
                    hw: le.0,
                    cdb: le.1,
                    pbeg: s.hw.sample_start as int,
                    pos: ((np - s.len) % len1) as u32,
                    len: len1 as u32,
                    acc: acc,
                    ..s
                }, smpl, vol, off, k + 1, n)
            }
        }
    }
}

/// The state that mixing a voice starts from: a voice just switched on
/// (mode 1) starts its loop window from the beginning.
pub open spec fn mix_start(hw: Hdb, acc: Seq<i32>, cdb: Seq<Cdb>) -> MixState {
    if hw.mode & 3 == 1 {
        MixState {
            hw: Hdb { sbeg: hw.sample_start, slen: hw.sample_len, mode: hw.mode | 2, ..hw },
            pbeg: hw.sample_start as int,
            pos: 0,
            len: (hw.sample_len as int * FRACTION_ONE as int) as u32,
            delta: hw.delta,
            acc: acc,
            cdb: cdb,
        }
    } else {
        MixState {
            hw: hw,
            pbeg: hw.sbeg as int,
            pos: hw.pos,
            len: (hw.slen as int * FRACTION_ONE as int) as u32,
            delta: hw.delta,
            acc: acc,
            cdb: cdb,
        }
    }
}

/// The voice as the mixer leaves it.
pub open spec fn mix_end(s: MixState) -> Hdb {
    Hdb { sbeg: s.pbeg as usize, pos: s.pos, delta: s.delta, mode: if s.hw.mode & 4 != 0 { 0 } else { s.hw.mode }, ..s.hw }
}

/// A voice, the accumulator and the channel blocks after `n` samples of
/// the voice were mixed in at `off`. A voice that is off, or whose window is
/// shorter than four samples, is not mixed.
#[verifier::opaque]
pub open spec fn voice_mixed(hw: Hdb, acc: Seq<i32>, cdb: Seq<Cdb>, smpl: Seq<i8>, n: int, off: int) -> (Hdb, Seq<i32>, Seq<Cdb>) {
    let hw0 = Hdb { sample_start: if hw.sample_start >= smpl.len() { 0 } else { hw.sample_start }, ..hw };
    let vol: i32 = if hw0.vol > 0x40 { 0x40 } else { hw0.vol as i32 };
    let sf = mix_samples(mix_start(hw0, acc, cdb), smpl, vol, off, 0, n);
    if hw0.mode & 1 == 0 || hw0.slen < 4 {
        (hw0, acc, cdb)
    } else {
        (mix_end(sf), sf.acc, sf.cdb)
    }
}

/// Mixes `iterations` samples of voice `hw` into `tbuf[off..]`, scaled by
/// the voice's volume (at most 0x40). The position advances by `delta` per
/// sample in fixed point; when it passes the window's end the voice rewinds
/// to its loop window and runs its loop behaviour, and is silenced when that
/// window is too short to play. Out-of-range windows are clamped.
pub fn mix(hw: &mut Hdb, iterations: usize, tbuf: &mut Vec<i32>, off: usize, smpl: &[i8], cdb: &mut Vec<Cdb>)
    requires
        off + iterations <= old(tbuf)@.len(),
        old(tbuf)@.len() == BUFSIZE,
        old(cdb)@.len() == NUM_CDB,
    ensures
        final(tbuf)@.len() == old(tbuf)@.len(),
        final(cdb)@.len() == NUM_CDB,
        forall|j: int| 0 <= j < NUM_CDB ==> #[trigger] final(cdb)@[j].hw_idx == old(cdb)@[j].hw_idx,
        forall|j: int| 0 <= j < old(tbuf)@.len() && !(off <= j < off + iterations)
            ==> #[trigger] final(tbuf)@[j] == old(tbuf)@[j],
        old(hw).mode & 1 == 0 || old(hw).slen < 4 ==> final(tbuf)@ == old(tbuf)@ && final(hw).pos == old(hw).pos,
        old(hw).mode & 1 != 0 && old(hw).slen >= 4 && iterations > 0 ==> voice_settled(*final(hw)),
        (*final(hw), final(tbuf)@, final(cdb)@) == voice_mixed(*old(hw), old(tbuf)@, old(cdb)@, smpl@, iterations as int, off as int),
{
    reveal(voice_mixed);
    if hw.sample_start >= smpl.len() {
        hw.sample_start = 0;
    }
    let volume: i32 = if hw.vol > 0x40 { 0x40 } else { hw.vol as i32 };
    let mut delta: u32 = hw.delta;
    let mut len: u32 = hw.slen as u32 * FRACTION_ONE;
    if hw.mode & 1 == 0 || len < 0x10000 {
        return;
    }
    let mut pbeg: usize = hw.sbeg;
    let mut pos: u32 = hw.pos;
    if hw.mode & 3 == 1 {
        hw.sbeg = hw.sample_start;
        pbeg = hw.sample_start;
        hw.slen = hw.sample_len;
        len = hw.sample_len as u32 * FRACTION_ONE;
        pos = 0;
        hw.mode = hw.mode | 2;
    }
    let ghost target = mix_samples(MixState { hw: *hw, pbeg: pbeg as int, pos: pos, len: len, delta: delta, acc: tbuf@, cdb: cdb@ },
        smpl@, volume, off as int, 0, iterations as int);
    let mut k: usize = 0;
    while k < iterations
        invariant
            k <= iterations,
            off + iterations <= tbuf@.len(),
            tbuf@.len() == old(tbuf)@.len(),
            tbuf@.len() == BUFSIZE,
            cdb@.len() == NUM_CDB,
            forall|j: int| 0 <= j < NUM_CDB ==> #[trigger] cdb@[j].hw_idx == old(cdb)@[j].hw_idx,
            forall|j: int| 0 <= j < old(tbuf)@.len() && !(off <= j < off + iterations)
                ==> #[trigger] tbuf@[j] == old(tbuf)@[j],
            len == hw.slen as int * FRACTION_ONE as int,
            0 <= volume <= 0x40,
            k > 0 ==> pos < len || (pos == 0 && delta == 0 && hw.slen == 0),
            mix_samples(MixState { hw: *hw, pbeg: pbeg as int, pos: pos, len: len, delta: delta, acc: tbuf@, cdb: cdb@ },
                smpl@, volume, off as int, k as int, iterations as int) == target,
        decreases iterations - k,
    {
        let pos_real = (pos >> FRACTION_BITS) as usize;
        let v1 = read_sample(smpl, pbeg, pos_real);
        assert(pos >> 14u32 <= 0x3ffffu32) by (bit_vector);
        let v2 = if (pos >> FRACTION_BITS) + 1 < hw.slen as u32 {
            read_sample(smpl, pbeg, pos_real + 1)
        } else {
            read_sample(smpl, hw.sample_start, 0)
        };
        let frac = pos & 0x3fffu32;
        assert(pos & 0x3fffu32 < 16384u32) by (bit_vector);
        let base = interp(v1, v2, frac);
        assert(-0x8000 <= volume * base <= 0x8000) by (nonlinear_arith)
            requires 0 <= volume <= 0x40, -0x200 <= base <= 0x200;
        let at = off + k;
        let acc = tbuf[at].wrapping_add(volume * base);
        tbuf.set(at, acc);
        k = k + 1;
        let np: u64 = pos as u64 + delta as u64;
        if np < len as u64 {
            pos = np as u32;
        } else {
            let rest: u64 = np - len as u64;
            pbeg = hw.sample_start;
            hw.slen = hw.sample_len;
            len = hw.sample_len as u32 * FRACTION_ONE;
            if len < 0x10000 || run_loop_fn(hw, cdb) == 0 {
                delta = 0;
                pos = 0;
                hw.slen = 0;
                len = 0;
                pbeg = 0;
                k = iterations;
            } else {
                pos = (rest % len as u64) as u32;
            }
        }
    }
    hw.sbeg = pbeg;
    hw.pos = pos;
    hw.delta = delta;
    if hw.mode & 4 != 0 {
        hw.mode = 0;
    }
}

} // verus!

verus! {

/// Whether voice `v` is heard: switched on, and part of the current layout
/// (voice 3 in four-voice mode, voices 4 to 7 in multimode).
pub open spec fn voice_heard(v: int, ch_on: Seq<bool>, multimode: bool) -> bool {
    ch_on[v] && if v == 3 { !multimode } else if v >= 4 { multimode } else { true }
}

/// The voices, the accumulator and the channel blocks after voice `v` was
/// mixed in.
pub open spec fn mix_one(hdb: Seq<Hdb>, acc: Seq<i32>, cdb: Seq<Cdb>, smpl: Seq<i8>, v: int, n: int, off: int) -> (Seq<Hdb>, Seq<i32>, Seq<Cdb>) {
    let r = voice_mixed(hdb[v], acc, cdb, smpl, n, off);
    (hdb.update(v, r.0), r.1, r.2)
}

/// Voice `v` mixed in at `off` if it is switched on.
pub open spec fn mix_if_on(s: (Seq<Hdb>, Seq<i32>, Seq<Cdb>), smpl: Seq<i8>, ch_on: Seq<bool>, v: int, n: int, off: int) -> (Seq<Hdb>, Seq<i32>, Seq<Cdb>) {
    if ch_on[v] { mix_one(s.0, s.1, s.2, smpl, v, n, off) } else { s }
}

/// Mixing every heard voice, in the mixer's order: voices 4 to 7 in
/// multimode (else voice 3), then voice 0, all into the left half, then
/// voices 1 and 2 into the right half.
pub open spec fn mix_all(hdb: Seq<Hdb>, acc: Seq<i32>, cdb: Seq<Cdb>, smpl: Seq<i8>, ch_on: Seq<bool>, mm: bool, n: int, off: int) -> (Seq<Hdb>, Seq<i32>, Seq<Cdb>) {
    let s0 = (hdb, acc, cdb);
    let s1 = if mm {
        mix_if_on(mix_if_on(mix_if_on(mix_if_on(s0, smpl, ch_on, 4, n, off), smpl, ch_on, 5, n, off), smpl, ch_on, 6, n, off), smpl, ch_on, 7, n, off)
    } else {
        mix_if_on(s0, smpl, ch_on, 3, n, off)
    };
    let s2 = mix_if_on(s1, smpl, ch_on, 0, n, off);
    let r = HALFBUFSIZE + off;
    mix_if_on(mix_if_on(s2, smpl, ch_on, 1, n, r), smpl, ch_on, 2, n, r)
}

fn mix_voice(v: usize, n: usize, off: usize, t: &mut TfmxCtx, audio: &mut AudioCtx, smpl: &[i8])
    requires
        old(t).wf(),
        old(audio).wf(),
        v < MAX_CHANNELS,
        off + n <= BUFSIZE,
    ensures
        final(t).wf(),
        final(t).same_program(old(t)),
        final(t).same_mapping(old(t)),
        final(t).mdb == old(t).mdb,
        final(t).pdblk == old(t).pdblk,
        final(t).cue == old(t).cue,
        final(t).multimode == old(t).multimode,
        final(t).loops == old(t).loops,
        final(t).jiffies == old(t).jiffies,
        final(t).e_clocks == old(t).e_clocks,
        final(audio).wf(),
        final(audio).buf == old(audio).buf,
        final(audio).bhead == old(audio).bhead,
        final(audio).btail == old(audio).btail,
        final(audio).blend == old(audio).blend,
        final(audio).samples_done == old(audio).samples_done,
        final(audio).e_rem == old(audio).e_rem,
        forall|j: int| 0 <= j < BUFSIZE && !(off <= j < off + n) ==> #[trigger] final(audio).tbuf@[j] == old(audio).tbuf@[j],
        forall|j: int| 0 <= j < MAX_CHANNELS && j != v ==> #[trigger] final(t).hdb@[j] == old(t).hdb@[j],
        old(t).hdb@[v as int].mode & 1 != 0 && old(t).hdb@[v as int].slen >= 4 && n > 0
            ==> voice_settled(final(t).hdb@[v as int]),
        (final(t).hdb@, final(audio).tbuf@, final(t).cdb@) == mix_one(old(t).hdb@, old(audio).tbuf@, old(t).cdb@, smpl@, v as int, n as int, off as int),
{
    let mut hw = t.hdb[v];
    mix(&mut hw, n, &mut audio.tbuf, off, smpl, &mut t.cdb);
    t.hdb.set(v, hw);
}

/// Mixes `n` samples of every heard voice into the accumulator at `off`:
/// voices 0 and 3 (or 4 to 7 in multimode) into the left half, voices 1 and
/// 2 into the right half.
#[verifier::rlimit(60)]
pub fn mixit(n: usize, off: usize, t: &mut TfmxCtx, audio: &mut AudioCtx, smpl: &[i8], ch_on: &Vec<bool>)
    requires
        old(t).wf(),
        old(audio).wf(),
        ch_on@.len() == MAX_CHANNELS,
        off + n <= HALFBUFSIZE,
    ensures
        final(t).wf(),
        final(t).same_program(old(t)),
        final(t).same_mapping(old(t)),
        final(t).mdb == old(t).mdb,
        final(t).pdblk == old(t).pdblk,
        final(t).cue == old(t).cue,
        final(t).multimode == old(t).multimode,
        final(t).loops == old(t).loops,
        final(t).jiffies == old(t).jiffies,
        final(t).e_clocks == old(t).e_clocks,
        final(audio).wf(),
        final(audio).buf == old(audio).buf,
        final(audio).bhead == old(audio).bhead,
        final(audio).btail == old(audio).btail,
        final(audio).blend == old(audio).blend,
        final(audio).samples_done == old(audio).samples_done,
        final(audio).e_rem == old(audio).e_rem,
        forall|j: int| 0 <= j < BUFSIZE && !(off <= j < off + n) && !(HALFBUFSIZE + off <= j < HALFBUFSIZE + off + n)
            ==> #[trigger] final(audio).tbuf@[j] == old(audio).tbuf@[j],
        forall|v: int| 0 <= v < MAX_CHANNELS && !voice_heard(v, ch_on@, old(t).multimode)
            ==> #[trigger] final(t).hdb@[v] == old(t).hdb@[v],
        (final(t).hdb@, final(audio).tbuf@, final(t).cdb@) == mix_all(old(t).hdb@, old(audio).tbuf@, old(t).cdb@, smpl@,
            ch_on@, old(t).multimode, n as int, off as int),
{
    if t.multimode {
        if ch_on[4] {
            mix_voice(4, n, off, t, audio, smpl);
        }
        if ch_on[5] {
            mix_voice(5, n, off, t, audio, smpl);
        }
        if ch_on[6] {
            mix_voice(6, n, off, t, audio, smpl);
        }
        if ch_on[7] {
            mix_voice(7, n, off, t, audio, smpl);
        }
    } else if ch_on[3] {
        mix_voice(3, n, off, t, audio, smpl);
    }
    if ch_on[0] {
        mix_voice(0, n, off, t, audio, smpl);
    }
    if ch_on[1] {
        mix_voice(1, n, HALFBUFSIZE + off, t, audio, smpl);
    }
    if ch_on[2] {
        mix_voice(2, n, HALFBUFSIZE + off, t, audio, smpl);
    }
}

} // verus!

verus! {

/// The left output sample of an accumulator pair.
pub open spec fn out_left(l: i32, r: i32, blend: bool) -> i16 {
    (if blend { blend_left(l, r) } else { l }) as i16
}

/// The right output sample of an accumulator pair.
pub open spec fn out_right(l: i32, r: i32, blend: bool) -> i16 {
    (if blend { blend_right(l, r) } else { r }) as i16
}

fn blend_pair(l: i32, r: i32) -> (res: (i32, i32))
    ensures
        res.0 == blend_left(l, r),
        res.1 == blend_right(l, r),
{
    let (l, r) = (l as i64, r as i64);
    let sy: i64 = r * 11 + l * 5;
    let sx: i64 = r * 5 + l * 11;
    assert(sy == (r as int * 11 + l as int * 5) as i64);
    assert(sx == (r as int * 5 + l as int * 11) as i64);
    ((sx >> 4i64) as i32, (sy >> 4i64) as i32)
}

/// Blends the two halves of the first `samples_done` accumulator entries,
/// so that headphone listening of the hard-panned voices is less harsh.
#[verifier::rlimit(40)]
pub fn stereo_blend(audio: &mut AudioCtx)
    requires
        old(audio).wf(),
    ensures
        final(audio).wf(),
        final(audio).buf == old(audio).buf,
        final(audio).bhead == old(audio).bhead,
        final(audio).btail == old(audio).btail,
        final(audio).blend == old(audio).blend,
        final(audio).samples_done == old(audio).samples_done,
        final(audio).e_rem == old(audio).e_rem,
        forall|i: int| 0 <= i < old(audio).samples_done ==> {
            let l = old(audio).tbuf@[i];
            let r = old(audio).tbuf@[HALFBUFSIZE + i];
            &&& #[trigger] final(audio).tbuf@[i] == blend_left(l, r)
            &&& final(audio).tbuf@[HALFBUFSIZE + i] == blend_right(l, r)
        },
        forall|j: int| 0 <= j < BUFSIZE && !(0 <= j < old(audio).samples_done)
            && !(HALFBUFSIZE <= j < HALFBUFSIZE + old(audio).samples_done)
            ==> #[trigger] final(audio).tbuf@[j] == old(audio).tbuf@[j],
{
    let mut i: usize = 0;
    while i < audio.samples_done
        invariant
            audio.wf(),
            i <= audio.samples_done,
            audio.buf == old(audio).buf,
            audio.bhead == old(audio).bhead,
            audio.btail == old(audio).btail,
            audio.blend == old(audio).blend,
            audio.samples_done == old(audio).samples_done,
            audio.e_rem == old(audio).e_rem,
            forall|k: int| 0 <= k < i ==> {
                let l = old(audio).tbuf@[k];
                let r = old(audio).tbuf@[HALFBUFSIZE + k];
                &&& #[trigger] audio.tbuf@[k] == blend_left(l, r)
                &&& audio.tbuf@[HALFBUFSIZE + k] == blend_right(l, r)
            },
            forall|j: int| 0 <= j < BUFSIZE && !(0 <= j < i) && !(HALFBUFSIZE <= j < HALFBUFSIZE + i)
                ==> #[trigger] audio.tbuf@[j] == old(audio).tbuf@[j],
        decreases audio.samples_done - i,
    {
        let ghost prev = audio.tbuf@;
        assert(prev[i as int] == old(audio).tbuf@[i as int]);
        assert(prev[HALFBUFSIZE + i] == old(audio).tbuf@[HALFBUFSIZE + i]);
        let (x, y) = blend_pair(audio.tbuf[i], audio.tbuf[HALFBUFSIZE + i]);
        audio.tbuf.set(i, x);
        audio.tbuf.set(HALFBUFSIZE + i, y);
        assert(audio.tbuf@ == prev.update(i as int, x).update(HALFBUFSIZE + i, y));
        assert forall|k: int| 0 <= k < i implies
            #[trigger] audio.tbuf@[k] == prev[k] && audio.tbuf@[HALFBUFSIZE + k] == prev[HALFBUFSIZE + k] by {}
        i = i + 1;
    }
}

/// Two offsets less than a ring's length apart land on different slots.
proof fn lemma_ring_distinct(h: int, a: int, b: int)
    requires
        0 <= h,
        0 <= a < b,
        b - a < BUFSIZE,
    ensures
        (h + a) % (BUFSIZE as int) != (h + b) % (BUFSIZE as int),
{
}

/// Slot of the right sample of frame `k` of a block written at `h`.
pub open spec fn slot(h: int, k: int) -> int {
    (h + 2 * k) % (BUFSIZE as int)
}

proof fn lemma_slots_apart(h: int, i: int)
    requires
        0 <= h,
        0 <= i < BLOCKSIZE,
    ensures
        slot(h, i) != (h + 2 * i + 1) % (BUFSIZE as int),
        forall|k: int| 0 <= k < i ==> {
            &&& #[trigger] slot(h, k) != slot(h, i)
            &&& slot(h, k) != (h + 2 * i + 1) % (BUFSIZE as int)
            &&& (h + 2 * k + 1) % (BUFSIZE as int) != slot(h, i)
            &&& (h + 2 * k + 1) % (BUFSIZE as int) != (h + 2 * i + 1) % (BUFSIZE as int)
        },
{
    lemma_ring_distinct(h, 2 * i, 2 * i + 1);
    assert forall|k: int| 0 <= k < i implies {
        &&& #[trigger] slot(h, k) != slot(h, i)
        &&& slot(h, k) != (h + 2 * i + 1) % (BUFSIZE as int)
        &&& (h + 2 * k + 1) % (BUFSIZE as int) != slot(h, i)
        &&& (h + 2 * k + 1) % (BUFSIZE as int) != (h + 2 * i + 1) % (BUFSIZE as int)
    } by {
        lemma_ring_distinct(h, 2 * k, 2 * i);
        lemma_ring_distinct(h, 2 * k, 2 * i + 1);
        lemma_ring_distinct(h, 2 * k + 1, 2 * i);
        lemma_ring_distinct(h, 2 * k + 1, 2 * i + 1);
    }
}

/// Converts the finished block (`samples_done` frames) of the accumulator
/// into interleaved 16-bit samples at the ring's head, blended when the blend
/// is on, and clears those accumulator entries for the next block.
#[verifier::rlimit(80)]
pub fn conv_s16(ctx: &mut AudioCtx)
    requires
        old(ctx).wf(),
        old(ctx).available() + old(ctx).samples_done * 2 < BUFSIZE,
    ensures
        final(ctx).wf(),
        final(ctx).btail == old(ctx).btail,
        final(ctx).bhead == (old(ctx).bhead + old(ctx).samples_done * 2) % (BUFSIZE as int),
        final(ctx).available() == old(ctx).available() + old(ctx).samples_done * 2,
        final(ctx).blend == old(ctx).blend,
        final(ctx).samples_done == old(ctx).samples_done,
        final(ctx).e_rem == old(ctx).e_rem,
        forall|i: int| 0 <= i < old(ctx).samples_done ==> {
            let l = old(ctx).tbuf@[i];
            let r = old(ctx).tbuf@[HALFBUFSIZE + i];
            &&& final(ctx).buf@[#[trigger] slot(old(ctx).bhead as int, i)] == out_right(l, r, old(ctx).blend)
            &&& final(ctx).buf@[(old(ctx).bhead + 2 * i + 1) % (BUFSIZE as int)] == out_left(l, r, old(ctx).blend)
        },
        forall|j: int| 0 <= j < BUFSIZE && ring_len(j, old(ctx).bhead as int) >= old(ctx).samples_done * 2
            ==> #[trigger] final(ctx).buf@[j] == old(ctx).buf@[j],
        forall|i: int| 0 <= i < old(ctx).samples_done ==> #[trigger] final(ctx).tbuf@[i] == 0
            && final(ctx).tbuf@[HALFBUFSIZE + i] == 0,
        forall|j: int| 0 <= j < BUFSIZE && !(0 <= j < old(ctx).samples_done)
            && !(HALFBUFSIZE <= j < HALFBUFSIZE + old(ctx).samples_done)
            ==> #[trigger] final(ctx).tbuf@[j] == old(ctx).tbuf@[j],
{
    let num = ctx.samples_done;
    if ctx.blend {
        stereo_blend(ctx);
    }
    let ghost mid = *ctx;
    assert forall|k: int| 0 <= k < num implies
        (#[trigger] mid.tbuf@[k]) as i16 == out_left(old(ctx).tbuf@[k], old(ctx).tbuf@[HALFBUFSIZE + k], old(ctx).blend)
        && mid.tbuf@[HALFBUFSIZE + k] as i16 == out_right(old(ctx).tbuf@[k], old(ctx).tbuf@[HALFBUFSIZE + k], old(ctx).blend)
    by {
        if !old(ctx).blend {
            assert(mid.tbuf@[HALFBUFSIZE + k] == old(ctx).tbuf@[HALFBUFSIZE + k]);
        }
    }
    let mut i: usize = 0;
    while i < num
        invariant
            ctx.wf(),
            num == ctx.samples_done,
            i <= num,
            ctx.bhead == mid.bhead,
            ctx.btail == mid.btail,
            ctx.blend == mid.blend,
            ctx.e_rem == mid.e_rem,
            ctx.tbuf == mid.tbuf,
            mid.buf == old(ctx).buf,
            forall|j: int| 0 <= j < BUFSIZE && ring_len(j, mid.bhead as int) >= 2 * i
                ==> #[trigger] ctx.buf@[j] == mid.buf@[j],
            forall|k: int| 0 <= k < i ==> {
                &&& ctx.buf@[#[trigger] slot(mid.bhead as int, k)] == mid.tbuf@[HALFBUFSIZE + k] as i16
                &&& ctx.buf@[(mid.bhead + 2 * k + 1) % (BUFSIZE as int)] == mid.tbuf@[k] as i16
            },
        decreases num - i,
    {
        let a = (ctx.bhead + 2 * i) % BUFSIZE;
        let b = (ctx.bhead + 2 * i + 1) % BUFSIZE;
        proof {
            lemma_slots_apart(mid.bhead as int, i as int);
        }
        let right = ctx.tbuf[HALFBUFSIZE + i] as i16;
        let left = ctx.tbuf[i] as i16;
        let ghost prev = ctx.buf@;
        assert(ring_len(a as int, mid.bhead as int) == 2 * i);
        assert(ring_len(b as int, mid.bhead as int) == 2 * i + 1);
        ctx.buf.set(a, right);
        ctx.buf.set(b, left);
        assert forall|k: int| 0 <= k < i implies
            ctx.buf@[#[trigger] slot(mid.bhead as int, k)] == prev[slot(mid.bhead as int, k)]
            && ctx.buf@[(mid.bhead + 2 * k + 1) % (BUFSIZE as int)] == prev[(mid.bhead + 2 * k + 1) % (BUFSIZE as int)] by {
            assert(slot(mid.bhead as int, k) != a as int);
            assert(slot(mid.bhead as int, k) != b as int);
        }
        assert(ctx.buf@[slot(mid.bhead as int, i as int)] == mid.tbuf@[HALFBUFSIZE + i] as i16);
        assert(ctx.buf@[(mid.bhead + 2 * i + 1) % (BUFSIZE as int)] == mid.tbuf@[i as int] as i16);
        i = i + 1;
    }
    let ghost filled = *ctx;
    let mut i: usize = 0;
    while i < num
        invariant
            ctx.wf(),
            num == ctx.samples_done,
            i <= num,
            ctx.bhead == mid.bhead,
            ctx.btail == mid.btail,
            ctx.blend == mid.blend,
            ctx.e_rem == mid.e_rem,
            ctx.buf == filled.buf,
            forall|k: int| 0 <= k < i ==> #[trigger] ctx.tbuf@[k] == 0,
            forall|k: int| HALFBUFSIZE <= k < HALFBUFSIZE + i ==> #[trigger] ctx.tbuf@[k] == 0,
            forall|j: int| 0 <= j < BUFSIZE && !(0 <= j < i) && !(HALFBUFSIZE <= j < HALFBUFSIZE + i)
                ==> #[trigger] ctx.tbuf@[j] == mid.tbuf@[j],
        decreases num - i,
    {
        ctx.tbuf.set(i, 0);
        ctx.tbuf.set(HALFBUFSIZE + i, 0);
        i = i + 1;
    }
    ctx.bhead = (ctx.bhead + num * 2) % BUFSIZE;
}

} // verus!

verus! {

/// Clears the accumulator's current block without converting it.
fn clear_block(ctx: &mut AudioCtx)
    requires
        old(ctx).wf(),
    ensures
        final(ctx).wf(),
        final(ctx).buf == old(ctx).buf,
        final(ctx).bhead == old(ctx).bhead,
        final(ctx).btail == old(ctx).btail,
        final(ctx).blend == old(ctx).blend,
        final(ctx).samples_done == old(ctx).samples_done,
        final(ctx).e_rem == old(ctx).e_rem,
{
    let mut i: usize = 0;
    while i < ctx.samples_done
        invariant
            ctx.wf(),
            i <= ctx.samples_done,
            ctx.buf == old(ctx).buf,
            ctx.bhead == old(ctx).bhead,
            ctx.btail == old(ctx).btail,
            ctx.blend == old(ctx).blend,
            ctx.samples_done == old(ctx).samples_done,
            ctx.e_rem == old(ctx).e_rem,
        decreases ctx.samples_done - i,
    {
        ctx.tbuf.set(i, 0);
        ctx.tbuf.set(HALFBUFSIZE + i, 0);
        i = i + 1;
    }
}

/// How many output samples one timer tick of `clocks` (timer ticks times
/// half the output rate) stands for, with the division remainder `e_rem`
/// carried from earlier ticks, and the new remainder: samples times
/// `CLOCKS_PER_SAMPLE` plus the new remainder is the old remainder plus
/// `clocks`, so no time is lost over many ticks.
pub fn tick_samples(e_rem: u64, clocks: u64) -> (res: (u64, u64))
    requires
        e_rem <= CLOCKS_PER_SAMPLE,
        clocks <= 0xffff_ffff * 0xffff_ffff,
    ensures
        res.0 * CLOCKS_PER_SAMPLE + res.1 == e_rem + clocks,
        res.1 <= CLOCKS_PER_SAMPLE,
{
    let mut rem = e_rem + clocks % CLOCKS_PER_SAMPLE;
    let mut nb: u64 = clocks / CLOCKS_PER_SAMPLE;
    assert(nb * CLOCKS_PER_SAMPLE + clocks % CLOCKS_PER_SAMPLE == clocks) by (nonlinear_arith)
        requires nb == clocks / CLOCKS_PER_SAMPLE;
    assert(nb * CLOCKS_PER_SAMPLE <= clocks) by (nonlinear_arith)
        requires nb == clocks / CLOCKS_PER_SAMPLE;
    if rem > CLOCKS_PER_SAMPLE {
        nb = nb + 1;
        rem = rem - CLOCKS_PER_SAMPLE;
    }
    (nb, rem)
}

/// Finishes the block in the accumulator: converts it into the ring when
/// it fits, else drops it.
fn flush_block(audio: &mut AudioCtx)
    requires
        old(audio).wf(),
    ensures
        final(audio).wf(),
        final(audio).samples_done == 0,
        final(audio).btail == old(audio).btail,
        final(audio).blend == old(audio).blend,
        final(audio).e_rem == old(audio).e_rem,
        final(audio).available() >= old(audio).available(),
{
    if available_sound_data(audio) + audio.samples_done * 2 < BUFSIZE {
        conv_s16(audio);
    } else {
        clear_block(audio);
    }
    audio.samples_done = 0;
}

/// Runs the engine tick by tick, mixing the samples that each tick's share
/// of the timer stands for (`tick_samples`), until at least half the ring
/// is full. Returns the number of blocks finished, or `None` when the
/// player has stopped: it was stopped already (nothing changes then), the
/// song ended, or `TICK_LIMIT` ticks did not fill half the ring (a song that
/// makes no sound is stopped). When the player stops, the partial block is
/// finished.
pub fn try_to_makeblock(
    header: &Header,
    audio: &mut AudioCtx,
    t: &mut TfmxCtx,
    smplbuf: &[i8],
    ch_on: &Vec<bool>,
) -> (r: Option<u32>)
    requires
        old(t).wf(),
        old(audio).wf(),
        old(audio).samples_done < BLOCKSIZE,
        ch_on@.len() == MAX_CHANNELS,
    ensures
        seq_kept(old(t), final(t)),
        final(audio).wf(),
        final(audio).samples_done < BLOCKSIZE,
        final(audio).btail == old(audio).btail,
        final(audio).blend == old(audio).blend,
        final(audio).available() >= old(audio).available(),
        r is None <==> !final(t).mdb.player_enable,
        !old(t).mdb.player_enable ==> r is None && *final(t) == *old(t) && *final(audio) == *old(audio),
        r is Some ==> final(audio).available() >= HALFBUFSIZE,
        old(t).mdb.player_enable && !final(t).mdb.player_enable ==> final(audio).samples_done == 0,
        old(audio).available() >= HALFBUFSIZE && old(t).mdb.player_enable ==> r == Some(0u32),
{
    if !t.mdb.player_enable {
        return None;
    }
    let mut r: u32 = 0;
    let mut fuel: u32 = TICK_LIMIT;
    while available_sound_data(audio) < HALFBUFSIZE && t.mdb.player_enable && fuel > 0
        invariant
            seq_kept(old(t), t),
            audio.wf(),
            audio.btail == old(audio).btail,
            audio.blend == old(audio).blend,
            audio.available() >= old(audio).available(),
            ch_on@.len() == MAX_CHANNELS,
            old(audio).available() >= HALFBUFSIZE ==> r == 0,
            old(audio).available() >= HALFBUFSIZE ==> t.mdb.player_enable == old(t).mdb.player_enable,
            audio.samples_done < BLOCKSIZE,
        decreases fuel,
    {
        fuel = fuel - 1;
        tfmx_irq_in(header, t);
        let (ec, hr) = (t.e_clocks as u64, (t.out_rate >> 1u32) as u64);
        assert(ec * hr <= 0xffff_ffff * 0xffff_ffff) by (nonlinear_arith)
            requires ec <= 0xffff_ffff, hr <= 0xffff_ffff;
        let (samples, rem) = tick_samples(audio.e_rem, ec * hr);
        audio.e_rem = rem;
        let mut nb: u64 = samples;
        while nb > 0
            invariant
                seq_kept(old(t), t),
                audio.wf(),
                audio.btail == old(audio).btail,
                audio.blend == old(audio).blend,
                audio.available() >= old(audio).available(),
                ch_on@.len() == MAX_CHANNELS,
                old(audio).available() < HALFBUFSIZE,
                audio.samples_done < BLOCKSIZE,
            decreases nb,
        {
            let room = audio.blocksize - audio.samples_done;
            let n: usize = if room as u64 > nb { nb as usize } else { room };
            mixit(n, audio.samples_done, t, audio, smplbuf, ch_on);
            audio.samples_done = audio.samples_done + n;
            nb = nb - n as u64;
            if audio.samples_done == audio.blocksize || !t.mdb.player_enable {
                flush_block(audio);
                r = r.wrapping_add(1);
            }
        }
    }
    if t.mdb.player_enable && available_sound_data(audio) < HALFBUFSIZE {
        // the ticks ran out before the ring filled: the song makes no sound
        t.mdb.player_enable = false;
    }
    if !t.mdb.player_enable {
        if audio.samples_done > 0 {
            flush_block(audio);
        }
        return None;
    }
    Some(r)
}

/// The samples in the ring from `tail` on, `count` of them, as
/// little-endian bytes.
pub open spec fn ring_bytes(buf: Seq<i16>, tail: int, count: int) -> Seq<u8>
    decreases count,
{
    if count <= 0 {
        Seq::empty()
    } else {
        let s = buf[(tail + count - 1) % (BUFSIZE as int)];
        ring_bytes(buf, tail, count - 1).push(s as u8).push(((s as u16) >> 8u16) as u8)
    }
}

/// Hands out everything that waits in the ring, oldest first, as
/// little-endian bytes of interleaved 16-bit stereo samples, and empties the
/// ring.
pub fn present_output(ctx: &mut AudioCtx) -> (r: Vec<u8>)
    requires
        old(ctx).wf(),
    ensures
        final(ctx).wf(),
        final(ctx).available() == 0,
        final(ctx).bhead == old(ctx).bhead,
        final(ctx).buf == old(ctx).buf,
        final(ctx).tbuf == old(ctx).tbuf,
        final(ctx).blend == old(ctx).blend,
        final(ctx).samples_done == old(ctx).samples_done,
        r@ == ring_bytes(old(ctx).buf@, old(ctx).btail as int, old(ctx).available()),
        old(ctx).btail as int == (old(ctx).bhead + BUFSIZE - old(ctx).available()) % (BUFSIZE as int),
        r@.len() == 2 * old(ctx).available(),
{
    let total = available_sound_data(ctx);
    let mut out: Vec<u8> = Vec::new();
    let mut k: usize = 0;
    while k < total
        invariant
            ctx.wf(),
            *ctx == *old(ctx),
            total == old(ctx).available(),
            k <= total,
            out@ == ring_bytes(ctx.buf@, ctx.btail as int, k as int),
            out@.len() == 2 * k,
        decreases total - k,
    {
        let s = ctx.buf[(ctx.btail + k) % BUFSIZE];
        out.push(s as u8);
        out.push(((s as u16) >> 8u16) as u8);
        k = k + 1;
    }
    ctx.btail = ctx.bhead;
    out
}

} // verus!

verus! {

/// The ring never holds a negative amount nor its whole capacity: for any
/// head and tail inside the buffer, `0 <= available < BUFSIZE`. Every
/// producing and consuming operation keeps head and tail inside the buffer
/// (`AudioCtx::wf`), so this holds after any sequence of them.
pub proof fn lemma_ring_available_bounded(a: AudioCtx)
    requires
        a.wf(),
    ensures
        0 <= a.available() < BUFSIZE,
{
}

/// Producing a block adds exactly its samples to what waits in the ring,
/// and consuming hands out exactly what waited and leaves the ring empty;
/// neither moves past the other end.
pub proof fn lemma_ring_produce_consume(before: AudioCtx, produced: AudioCtx, consumed: AudioCtx)
    requires
        before.wf(),
        produced.wf(),
        consumed.wf(),
        before.available() + before.samples_done * 2 < BUFSIZE,
        produced.btail == before.btail,
        produced.bhead == (before.bhead + before.samples_done * 2) % (BUFSIZE as int),
        consumed.bhead == produced.bhead,
        consumed.btail == produced.bhead,
    ensures
        produced.available() == before.available() + before.samples_done * 2,
        produced.available() < BUFSIZE,
        consumed.available() == 0,
{
}

/// Blending changes only the mix of the two halves: with the blend on, an
/// accumulator pair comes out as the blend-off output of the blended pair,
/// and with the blend off each half comes out as it stands.
pub proof fn lemma_blend_only_remixes(l: i32, r: i32)
    ensures
        out_left(l, r, true) == out_left(blend_left(l, r), blend_right(l, r), false),
        out_right(l, r, true) == out_right(blend_left(l, r), blend_right(l, r), false),
        out_left(l, r, false) == l as i16,
        out_right(l, r, false) == r as i16,
{
}

} // verus!
