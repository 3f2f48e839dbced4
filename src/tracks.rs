//! The pattern and track sequencer.
use vstd::prelude::*;
use crate::ctx::{fetch, fetch_entry, table_entry, word_at, TfmxCtx};
use crate::header::{Header, MAX_SONGS};
use crate::macros::{all_channels_tick, channel_off, channel_off_effect, do_all_macros, do_fade, fade_set, note_effect, note_port, note_target};
use crate::state::{Cdb, Hdb, LoopBehavior, Mdb, Pdb, DEFAULT_E_CLOCKS, MAX_CHANNELS, NUM_CDB};
use vstd::wrapping::{i16_specs, i32_specs, u16_specs, u8_specs};
use crate::word::{byte_of, with_byte_of, U32Be};

verus! {

/// Most track-table rows read for one change of song position; a table that
/// only ever jumps stops the player when they are used up.
pub const TRACK_STEP_LIMIT: u32 = 0x10000;
/// Most pattern instructions run for one channel in one sequencer step.
pub const PATTERN_STEP_LIMIT: u32 = 0x10000;
/// Most pattern-channel visits in one sequencer step.
pub const TRACKS_VISIT_LIMIT: u32 = 0x1000;
/// Marker of a track-table row that holds a command instead of patterns.
pub const TRACK_COMMAND: u16 = 0xeffe;
/// Timer base that a tempo divides.
pub const TEMPO_CLOCK: u32 = 0x001b_51f8;

/// Half `j` (0 = the high one) of the row of track-table words `w`.
pub open spec fn row_half(w: Seq<u32>, j: int) -> u16 {
    if j % 2 == 0 { (w[j / 2] >> 16u32) as u16 } else { w[j / 2] as u16 }
}

/// The sixteen-bit half `j` of the four words `w`.
fn half(w: &Vec<u32>, j: usize) -> (r: u16)
    requires
        w@.len() == 4,
        j < 8,
    ensures
        r == row_half(w@, j as int),
{
    if j % 2 == 0 { (w[j / 2] >> 16u32) as u16 } else { w[j / 2] as u16 }
}

/// The common parts of the sequencer's contracts: a well-formed engine with
/// the same program and the same channel-to-voice binding.
pub open spec fn seq_kept(a: &TfmxCtx, b: &TfmxCtx) -> bool {
    &&& b.wf()
    &&& b.same_program(a)
    &&& b.same_mapping(a)
}


/// The sequencer's part of the engine state.
pub struct SeqModel {
    pub first_pos: u16,
    pub last_pos: u16,
    pub curr_pos: u16,
    pub prescale: u16,
    pub p: Seq<Pdb>,
    pub mdb: Mdb,
    pub loops: i32,
    pub jiffies: i32,
    pub e_clocks: u32,
    pub multimode: bool,
}

impl TfmxCtx {
    pub open spec fn seq_model(&self) -> SeqModel {
        SeqModel {
            first_pos: self.pdblk.first_pos,
            last_pos: self.pdblk.last_pos,
            curr_pos: self.pdblk.curr_pos,
            prescale: self.pdblk.prescale,
            p: self.pdblk.p@,
            mdb: self.mdb,
            loops: self.loops,
            jiffies: self.jiffies,
            e_clocks: self.e_clocks,
            multimode: self.multimode,
        }
    }
}

/// `m` with the player stopped.
pub open spec fn stopped(m: SeqModel) -> SeqModel {
    SeqModel { mdb: Mdb { player_enable: false, ..m.mdb }, ..m }
}

/// The pattern cursor that the track-row entry `l` gives: its high byte is
/// the pattern number (0x80 and up: none), its low byte the transpose.
pub open spec fn assign_pattern(p: Pdb, l: u16, buf: Seq<u32>, ps: int) -> Pdb {
    let num = (l >> 8u16) as u8;
    let p1 = Pdb { xpose: (l & 0xff) as i8, num: num, ..p };
    if num < 0x80 {
        Pdb { step: 0, wait: 0, loop_: 0xffff, addr: table_entry(buf, ps, num as int), ..p1 }
    } else {
        p1
    }
}

/// `m` moved on by one song position.
pub open spec fn advanced(m: SeqModel) -> SeqModel {
    SeqModel { curr_pos: u16_specs::wrapping_add(m.curr_pos, 1), ..m }
}

/// What a track command row (`l1` its command, `l2` and `l3` its
/// arguments) does, on a state whose loop counter has been checked.
pub open spec fn track_command(m: SeqModel, l1: u16, l2: u16, l3: u16) -> SeqModel {
    if l1 == 2 {
        let m1 = SeqModel { prescale: l2, mdb: Mdb { speed_cnt: l2, ..m.mdb }, ..m };
        advanced(if l3 & 0xf200 == 0 && l3 & 0x1ff > 0xf {
            SeqModel { e_clocks: TEMPO_CLOCK, mdb: Mdb { cia_save: TEMPO_CLOCK as u16, ..m1.mdb }, ..m1 }
        } else {
            m1
        })
    } else if l1 == 3 {
        advanced(if l3 & 0x8000 == 0 {
            let s = (l3 as u8) as i8;
            let x: int = if s < -0x20 { -0x20 } else { s as int };
            let e = (14318 * (x + 100) / 100) as u32;
            SeqModel { e_clocks: e, mdb: Mdb { cia_save: e as u16, ..m.mdb }, multimode: true, ..m }
        } else {
            m
        })
    } else if l1 == 4 {
        advanced(SeqModel { mdb: fade_set(m.mdb, (l2 & 0xff) as i32, (l3 & 0xff) as i32), ..m })
    } else {
        advanced(m)
    }
}

/// What reading the track row at the current song position does: the new
/// state, and whether reading goes on with the next row (after a command
/// row). A pattern row gives every channel its pattern and transpose. The
/// player stops at the end of the song and past the image's end.
#[verifier::opaque]
pub open spec fn track_row_step(m: SeqModel, buf: Seq<u32>, ts: int, ps: int) -> (SeqModel, bool) {
    let start = m.curr_pos == m.first_pos && m.loops <= 0;
    if start && m.loops < 0 {
        (stopped(m), false)
    } else {
        let m1 = if start { SeqModel { loops: (m.loops - 1) as i32, ..m } } else { m };
        let row = m1.curr_pos as int * 4;
        let o = seq![word_at(buf, ts, row), word_at(buf, ts, row + 1), word_at(buf, ts, row + 2), word_at(buf, ts, row + 3)];
        if o[0] is None || o[1] is None || o[2] is None || o[3] is None {
            (stopped(m1), false)
        } else {
            let w = seq![o[0]->Some_0, o[1]->Some_0, o[2]->Some_0, o[3]->Some_0];
            let m2 = SeqModel { jiffies: 0, ..m1 };
            let (l1, l2, l3) = (row_half(w, 1), row_half(w, 2), row_half(w, 3));
            if row_half(w, 0) == TRACK_COMMAND {
                if l1 == 0 {
                    (stopped(m2), false)
                } else if l1 == 1 {
                    let lp = if m2.loops != 0 { i32_specs::wrapping_sub(m2.loops, 1) } else { m2.loops };
                    if m2.loops != 0 && lp == 0 {
                        (stopped(SeqModel { loops: lp, ..m2 }), false)
                    } else {
                        let tl = m2.mdb.track_loop;
                        let tl1 = i16_specs::wrapping_sub(tl, 1);
                        (if tl == 0 {
                            advanced(SeqModel { loops: lp, mdb: Mdb { track_loop: -1i16, ..m2.mdb }, ..m2 })
                        } else {
                            SeqModel {
                                loops: lp,
                                mdb: Mdb { track_loop: if tl1 < 0 { l3 as i16 } else { tl1 }, ..m2.mdb },
                                curr_pos: l2,
                                ..m2
                            }
                        }, true)
                    }
                } else {
                    (track_command(m2, l1, l2, l3), true)
                }
            } else {
                (SeqModel { p: Seq::new(8, |ch: int| assign_pattern(m2.p[ch], row_half(w, ch), buf, ps)), ..m2 }, false)
            }
        }
    }
}

/// Reading track rows from the current song position, at most `fuel` of
/// them; the player stops when they run out.
#[verifier::opaque]
pub open spec fn track_rows(m: SeqModel, buf: Seq<u32>, ts: int, ps: int, fuel: nat) -> SeqModel
    decreases fuel,
{
    if fuel == 0 {
        stopped(m)
    } else {
        let r = track_row_step(m, buf, ts, ps);
        if r.1 { track_rows(r.0, buf, ts, ps, (fuel - 1) as nat) } else { r.0 }
    }
}

/// Carries out a track command row other than end and loop.
fn track_cmd(t: &mut TfmxCtx, l1: u16, l2: u16, l3: u16)
    requires
        old(t).wf(),
    ensures
        seq_kept(old(t), final(t)),
        final(t).cdb == old(t).cdb,
        final(t).hdb == old(t).hdb,
        final(t).cue == old(t).cue,
        final(t).pdblk.p == old(t).pdblk.p,
        final(t).seq_model() == track_command(old(t).seq_model(), l1, l2, l3),
{
    if l1 == 2 {
        t.pdblk.prescale = l2;
        t.mdb.speed_cnt = t.pdblk.prescale;
        // the divisor of the timer base is the truth value of the
        // comparison, so the timer takes the base itself
        if l3 & 0xf200 == 0 && l3 & 0x1ff > 0xf {
            t.e_clocks = TEMPO_CLOCK;
            t.mdb.cia_save = t.e_clocks as u16;
        }
    } else if l1 == 3 {
        if l3 & 0x8000 == 0 {
            let s = (l3 as u8) as i8;
            let x: i32 = if s < -0x20 { -0x20 } else { s as i32 };
            t.e_clocks = 14318 * ((x + 100) as u32) / 100;
            t.mdb.cia_save = t.e_clocks as u16;
            t.multimode = true;
        }
    } else if l1 == 4 {
        do_fade((l2 & 0xff) as i32, (l3 & 0xff) as i32, &mut t.mdb);
    }
    t.pdblk.curr_pos = t.pdblk.curr_pos.wrapping_add(1);
}

/// Reads the track row at the current song position and carries it out;
/// returns whether the next row is to be read.
#[verifier::rlimit(60)]
fn read_row(t: &mut TfmxCtx, track_start: usize, patt_start: usize) -> (cont: bool)
    requires
        old(t).wf(),
    ensures
        seq_kept(old(t), final(t)),
        final(t).cdb == old(t).cdb,
        final(t).hdb == old(t).hdb,
        final(t).cue == old(t).cue,
        final(t).pdblk.first_pos == old(t).pdblk.first_pos,
        final(t).pdblk.last_pos == old(t).pdblk.last_pos,
        (final(t).seq_model(), cont) == track_row_step(old(t).seq_model(), old(t).editbuf@, track_start as int, patt_start as int),
{
    reveal(track_row_step);
    if t.pdblk.curr_pos == t.pdblk.first_pos && t.loops <= 0 {
        if t.loops < 0 {
            t.mdb.player_enable = false;
            return false;
        }
        t.loops = t.loops - 1;
    }
    let ghost m1 = t.seq_model();
    let ghost m0 = old(t).seq_model();
    let ghost start = m0.curr_pos == m0.first_pos && m0.loops <= 0;
    assert(!(start && m0.loops < 0));
    assert(m1 == if start { SeqModel { loops: (m0.loops - 1) as i32, ..m0 } } else { m0 });
    let row = t.pdblk.curr_pos as usize * 4;
    let mut w: Vec<u32> = Vec::new();
    let mut k: usize = 0;
    while k < 4
        invariant
            k <= 4,
            w@.len() == k,
            row == m1.curr_pos as int * 4,
            t.seq_model() == m1,
            m0 == old(t).seq_model(),
            start == (m0.curr_pos == m0.first_pos && m0.loops <= 0),
            !(start && m0.loops < 0),
            m1 == if start { SeqModel { loops: (m0.loops - 1) as i32, ..m0 } } else { m0 },
            seq_kept(old(t), t),
            t.cdb == old(t).cdb,
            t.hdb == old(t).hdb,
            t.cue == old(t).cue,
            t.pdblk.first_pos == old(t).pdblk.first_pos,
            t.pdblk.last_pos == old(t).pdblk.last_pos,
            forall|j: int| 0 <= j < k ==> word_at(t.editbuf@, track_start as int, row + j) == Some(#[trigger] w@[j]),
        decreases 4 - k,
    {
        match fetch(&t.editbuf, track_start, row + k) {
            Some(x) => w.push(x),
            None => {
                proof {
                    let ts = track_start as int;
                    let buf = t.editbuf@;
                    let o = seq![word_at(buf, ts, row as int), word_at(buf, ts, row + 1), word_at(buf, ts, row + 2),
                        word_at(buf, ts, row + 3)];
                    assert(o[k as int] == word_at(buf, ts, row + k));
                    assert(o[0] is None || o[1] is None || o[2] is None || o[3] is None);
                    reveal(track_row_step);
                    assert(track_row_step(m0, buf, ts, patt_start as int) == (stopped(m1), false));
                }
                t.mdb.player_enable = false;
                return false;
            },
        }
        k = k + 1;
    }
    let ghost ts = track_start as int;
    let ghost buf = t.editbuf@;
    assert(w@ =~= seq![word_at(buf, ts, row as int)->Some_0, word_at(buf, ts, row + 1)->Some_0,
        word_at(buf, ts, row + 2)->Some_0, word_at(buf, ts, row + 3)->Some_0]);
    t.jiffies = 0;
    let l0 = half(&w, 0);
    let l1 = half(&w, 1);
    let l2 = half(&w, 2);
    let l3 = half(&w, 3);
    let ghost m2 = t.seq_model();
    if l0 == TRACK_COMMAND {
        if l1 == 0 {
            t.mdb.player_enable = false;
            false
        } else if l1 == 1 {
            if t.loops != 0 {
                t.loops = t.loops.wrapping_sub(1);
                if t.loops == 0 {
                    t.mdb.player_enable = false;
                    return false;
                }
            }
            let track_loop = t.mdb.track_loop;
            t.mdb.track_loop = t.mdb.track_loop.wrapping_sub(1);
            if track_loop == 0 {
                t.mdb.track_loop = -1;
                t.pdblk.curr_pos = t.pdblk.curr_pos.wrapping_add(1);
            } else {
                if t.mdb.track_loop < 0 {
                    t.mdb.track_loop = l3 as i16;
                }
                t.pdblk.curr_pos = l2;
            }
            true
        } else {
            track_cmd(t, l1, l2, l3);
            true
        }
    } else {
        let mut ch: usize = 0;
        while ch < MAX_CHANNELS
            invariant
                ch <= MAX_CHANNELS,
                w@.len() == 4,
                seq_kept(old(t), t),
                t.cdb == old(t).cdb,
                t.hdb == old(t).hdb,
                t.cue == old(t).cue,
                t.pdblk.first_pos == old(t).pdblk.first_pos,
                t.pdblk.last_pos == old(t).pdblk.last_pos,
                t.seq_model() == (SeqModel { p: t.pdblk.p@, ..m2 }),
                forall|j: int| 0 <= j < ch ==> #[trigger] t.pdblk.p@[j]
                    == assign_pattern(m2.p[j], row_half(w@, j), t.editbuf@, patt_start as int),
                forall|j: int| ch <= j < MAX_CHANNELS ==> #[trigger] t.pdblk.p@[j] == m2.p[j],
            decreases MAX_CHANNELS - ch,
        {
            let l = half(&w, ch);
            let mut p = t.pdblk.p[ch];
            p.xpose = (l & 0xff) as i8;
            p.num = (l >> 8u16) as u8;
            if p.num < 0x80 {
                p.step = 0;
                p.wait = 0;
                p.loop_ = 0xffff;
                p.addr = fetch_entry(&t.editbuf, patt_start, p.num as usize);
            }
            t.pdblk.p.set(ch, p);
            ch = ch + 1;
        }
        assert(t.pdblk.p@ =~= Seq::new(8, |j: int| assign_pattern(m2.p[j], row_half(w@, j), t.editbuf@, patt_start as int)));
        false
    }
}

/// Reads track rows from the current song position: command rows (end,
/// loop, tempo, multimode, fade) are carried out and the next row read; a
/// pattern row assigns a pattern and a transpose to each channel. The
/// player stops when `TRACK_STEP_LIMIT` rows were commands.
pub fn get_track_step(t: &mut TfmxCtx, track_start: usize, patt_start: usize)
    requires
        old(t).wf(),
    ensures
        seq_kept(old(t), final(t)),
        final(t).cdb == old(t).cdb,
        final(t).hdb == old(t).hdb,
        final(t).cue == old(t).cue,
        final(t).pdblk.first_pos == old(t).pdblk.first_pos,
        final(t).pdblk.last_pos == old(t).pdblk.last_pos,
        final(t).seq_model() == track_rows(
            old(t).seq_model(),
            old(t).editbuf@,
            track_start as int,
            patt_start as int,
            TRACK_STEP_LIMIT as nat,
        ),
{
    reveal(track_rows);
    let mut fuel: u32 = TRACK_STEP_LIMIT;
    while fuel > 0
        invariant
            seq_kept(old(t), t),
            t.cdb == old(t).cdb,
            t.hdb == old(t).hdb,
            t.cue == old(t).cue,
            t.pdblk.first_pos == old(t).pdblk.first_pos,
            t.pdblk.last_pos == old(t).pdblk.last_pos,
            track_rows(t.seq_model(), t.editbuf@, track_start as int, patt_start as int, fuel as nat)
                == track_rows(old(t).seq_model(), old(t).editbuf@, track_start as int, patt_start as int,
                TRACK_STEP_LIMIT as nat),
        decreases fuel,
    {
        proof {
            reveal(track_rows);
        }
        fuel = fuel - 1;
        if !read_row(t, track_start, patt_start) {
            return;
        }
    }
    t.mdb.player_enable = false;
}

} // verus!

verus! {

/// How one pattern instruction hands control back.
pub enum PatFlow {
    /// Go on with the next instruction.
    Go,
    /// The channel waits until a later sequencer step.
    Wait,
    /// The pattern ended and the song moved on.
    Ended,
}

/// The pattern and channel state that the pattern interpreter changes.
pub struct PatModel {
    pub m: SeqModel,
    pub cdb: Seq<Cdb>,
    pub cue: Seq<u16>,
}

impl TfmxCtx {
    pub open spec fn pat_model(&self) -> PatModel {
        PatModel { m: self.seq_model(), cdb: self.cdb@, cue: self.cue@ }
    }
}

/// `m` with pattern cursor `pi` replaced by `p`.
pub open spec fn with_pdb(m: SeqModel, pi: int, p: Pdb) -> SeqModel {
    SeqModel { p: m.p.update(pi, p), ..m }
}

/// One instruction of channel `pi`'s pattern program: a note (sent to the
/// macro interpreter, transposed, possibly with a wait), or a command: end
/// (the song moves on), loop, jump, call and return, wait, stop, key-up,
/// vibrato, envelope and lock notes, fade, cue, or starting a pattern on
/// another channel.
pub open spec fn pattern_step(s: PatModel, buf: Seq<u32>, pi: int, ts: int, ms: int, ps: int, dfh: bool) -> (PatModel, PatFlow) {
    let m = s.m;
    let p = m.p[pi];
    let p1 = Pdb { step: u16_specs::wrapping_add(p.step, 1), ..p };
    match word_at(buf, p.addr as int, p.step as int) {
        None => (PatModel { m: with_pdb(m, pi, Pdb { num: 0xff, ..p1 }), ..s }, PatFlow::Wait),
        Some(w) => {
            let op = byte_of(w, 0);
            let b1 = byte_of(w, 1);
            let b2 = byte_of(w, 2);
            let b3 = byte_of(w, 3);
            let hi = w as u16;
            let m1 = with_pdb(m, pi, p1);
            let send = |n: u32, c: Seq<Cdb>|
                c.update(note_target(n, m.multimode), note_effect(c[note_target(n, m.multimode)], n, dfh,
                    table_entry(buf, ms, byte_of(n, 1) as int)));
            if op < 0xf0 {
                let carry = op & 0xc0 == 0x80;
                let w1 = if carry { with_byte_of(w, 3, 0) } else { w };
                let n0 = u8_specs::wrapping_add_signed(op, p.xpose) & 0x3f;
                let n = if op & 0xc0 == 0xc0 { n0 | 0xc0 } else { n0 };
                let w2 = with_byte_of(w1, 0, n);
                let mp = if carry { with_pdb(m, pi, Pdb { wait: b3, ..p1 }) } else { m1 };
                (PatModel { m: mp, cdb: send(w2, s.cdb), cue: s.cue }, if carry { PatFlow::Wait } else { PatFlow::Go })
            } else {
                let cmd = op & 0xf;
                if cmd == 0 {
                    let m2 = with_pdb(m, pi, Pdb { num: 0xff, ..p1 });
                    let m3 = SeqModel {
                        curr_pos: if m2.curr_pos == m2.last_pos { m2.first_pos } else { u16_specs::wrapping_add(m2.curr_pos, 1) },
                        ..m2
                    };
                    (PatModel { m: track_rows(m3, buf, ts, ps, TRACK_STEP_LIMIT as nat), ..s }, PatFlow::Ended)
                } else if cmd == 1 {
                    let q = if p1.loop_ == 0 {
                        Pdb { loop_: 0xffff, ..p1 }
                    } else {
                        let l = if p1.loop_ == 0xffff { b1 as u16 } else { p1.loop_ };
                        Pdb { loop_: u16_specs::wrapping_sub(l, 1), step: hi, ..p1 }
                    };
                    (PatModel { m: with_pdb(m, pi, q), ..s }, PatFlow::Go)
                } else if cmd == 8 {
                    let q = Pdb { ro_addr: p1.addr as u16, ro_step: p1.step, addr: table_entry(buf, ps, b1 as int), step: hi, ..p1 };
                    (PatModel { m: with_pdb(m, pi, q), ..s }, PatFlow::Go)
                } else if cmd == 2 {
                    (PatModel { m: with_pdb(m, pi, Pdb { addr: table_entry(buf, ps, b1 as int), step: hi, ..p1 }), ..s }, PatFlow::Go)
                } else if cmd == 3 {
                    (PatModel { m: with_pdb(m, pi, Pdb { wait: b1, ..p1 }), ..s }, PatFlow::Wait)
                } else if cmd == 14 || cmd == 4 {
                    let m2 = with_pdb(m, pi, Pdb { num: 0xff, ..p1 });
                    (PatModel {
                        m: if cmd == 14 { SeqModel { mdb: Mdb { play_patt_flag: 0, ..m2.mdb }, ..m2 } } else { m2 },
                        ..s
                    }, PatFlow::Wait)
                } else if cmd == 5 || cmd == 6 || cmd == 7 || cmd == 12 {
                    (PatModel { m: m1, cdb: send(w, s.cdb), cue: s.cue }, PatFlow::Go)
                } else if cmd == 9 {
                    (PatModel { m: with_pdb(m, pi, Pdb { addr: p1.ro_addr as u32, step: p1.ro_step, ..p1 }), ..s }, PatFlow::Go)
                } else if cmd == 10 {
                    (PatModel { m: SeqModel { mdb: fade_set(m1.mdb, b1 as i32, b3 as i32), ..m1 }, ..s }, PatFlow::Go)
                } else if cmd == 13 {
                    (PatModel { m: m1, cdb: s.cdb, cue: s.cue.update((b1 & 3) as int, hi) }, PatFlow::Go)
                } else if cmd == 11 {
                    let other = (b2 & 7) as int;
                    let q = Pdb {
                        num: b1,
                        addr: table_entry(buf, ps, b1 as int),
                        xpose: b3 as i8,
                        step: 0,
                        wait: 0,
                        loop_: 0xffff,
                        ..m1.p[other]
                    };
                    (PatModel { m: with_pdb(m1, other, q), ..s }, PatFlow::Go)
                } else {
                    (PatModel { m: m1, ..s }, PatFlow::Go)
                }
            }
        }
    }
}

/// Channel `pi`'s pattern program run for at most `fuel` instructions:
/// the new state, and whether the pattern ended (and the song moved on).
pub open spec fn pattern_run(s: PatModel, buf: Seq<u32>, pi: int, ts: int, ms: int, ps: int, dfh: bool, fuel: nat) -> (PatModel, bool)
    decreases fuel,
{
    if fuel == 0 {
        (s, false)
    } else {
        let (s1, f) = pattern_step(s, buf, pi, ts, ms, ps, dfh);
        match f {
            PatFlow::Go => pattern_run(s1, buf, pi, ts, ms, ps, dfh, (fuel - 1) as nat),
            PatFlow::Wait => (s1, false),
            PatFlow::Ended => (s1, true),
        }
    }
}

/// Runs one instruction of channel `pi`'s pattern program.
#[verifier::rlimit(80)]
fn pattern_instr(t: &mut TfmxCtx, pi: usize, track_start: usize, macro_start: usize, patt_start: usize) -> (f: PatFlow)
    requires
        old(t).wf(),
        pi < MAX_CHANNELS,
    ensures
        seq_kept(old(t), final(t)),
        final(t).hdb == old(t).hdb,
        (final(t).pat_model(), f) == pattern_step(old(t).pat_model(), old(t).editbuf@, pi as int,
            track_start as int, macro_start as int, patt_start as int, old(t).danger_freak_hack),
{
    let mut p = t.pdblk.p[pi];
    let p_step = p.step;
    p.step = p.step.wrapping_add(1);
    let w = match fetch(&t.editbuf, p.addr as usize, p_step as usize) {
        Some(w) => w,
        None => {
            p.num = 0xff;
            t.pdblk.p.set(pi, p);
            return PatFlow::Wait;
        },
    };
    let mut word = U32Be::from_ne(w);
    let op = word.byte(0);
    let b1 = word.byte(1);
    let b2 = word.byte(2);
    let b3 = word.byte(3);
    if op < 0xf0 {
        if op & 0xc0 == 0x80 {
            p.wait = b3;
            word.set_byte(3, 0);
        }
        let mut note = op.wrapping_add_signed(p.xpose) & 0x3f;
        if op & 0xc0 == 0xc0 {
            note = note | 0xc0;
        }
        word.set_byte(0, note);
        t.pdblk.p.set(pi, p);
        note_port(t, word.whole(), macro_start);
        if op & 0xc0 == 0x80 { PatFlow::Wait } else { PatFlow::Go }
    } else {
        let cmd = op & 0xf;
        if cmd == 0 {
            p.num = 0xff;
            t.pdblk.p.set(pi, p);
            t.pdblk.curr_pos = if t.pdblk.curr_pos == t.pdblk.last_pos {
                t.pdblk.first_pos
            } else {
                t.pdblk.curr_pos.wrapping_add(1)
            };
            get_track_step(t, track_start, patt_start);
            PatFlow::Ended
        } else if cmd == 1 {
            if p.loop_ == 0 {
                p.loop_ = 0xffff;
            } else {
                if p.loop_ == 0xffff {
                    p.loop_ = b1 as u16;
                }
                p.loop_ = p.loop_.wrapping_sub(1);
                p.step = word.hi();
            }
            t.pdblk.p.set(pi, p);
            PatFlow::Go
        } else if cmd == 8 {
            p.ro_addr = p.addr as u16;
            p.ro_step = p.step;
            p.addr = fetch_entry(&t.editbuf, patt_start, b1 as usize);
            p.step = word.hi();
            t.pdblk.p.set(pi, p);
            PatFlow::Go
        } else if cmd == 2 {
            p.addr = fetch_entry(&t.editbuf, patt_start, b1 as usize);
            p.step = word.hi();
            t.pdblk.p.set(pi, p);
            PatFlow::Go
        } else if cmd == 3 {
            p.wait = b1;
            t.pdblk.p.set(pi, p);
            PatFlow::Wait
        } else if cmd == 14 || cmd == 4 {
            if cmd == 14 {
                t.mdb.play_patt_flag = 0;
            }
            p.num = 0xff;
            t.pdblk.p.set(pi, p);
            PatFlow::Wait
        } else if cmd == 5 || cmd == 6 || cmd == 7 || cmd == 12 {
            t.pdblk.p.set(pi, p);
            note_port(t, word.whole(), macro_start);
            PatFlow::Go
        } else if cmd == 9 {
            p.addr = p.ro_addr as u32;
            p.step = p.ro_step;
            t.pdblk.p.set(pi, p);
            PatFlow::Go
        } else if cmd == 10 {
            t.pdblk.p.set(pi, p);
            do_fade(b1 as i32, b3 as i32, &mut t.mdb);
            PatFlow::Go
        } else if cmd == 13 {
            t.pdblk.p.set(pi, p);
            assert((b1 & 3) < 4u8) by (bit_vector);
            t.cue.set((b1 & 3) as usize, word.hi());
            PatFlow::Go
        } else if cmd == 11 {
            t.pdblk.p.set(pi, p);
            let other = (b2 & 7) as usize;
            assert((b2 & 7) < 8u8) by (bit_vector);
            let mut q = t.pdblk.p[other];
            q.num = b1;
            q.addr = fetch_entry(&t.editbuf, patt_start, b1 as usize);
            q.xpose = b3 as i8;
            q.step = 0;
            q.wait = 0;
            q.loop_ = 0xffff;
            t.pdblk.p.set(other, q);
            PatFlow::Go
        } else {
            // no operation
            t.pdblk.p.set(pi, p);
            PatFlow::Go
        }
    }
}

/// Runs channel `pi`'s pattern program for one sequencer step: notes go to
/// the macro interpreter, pattern commands move the cursor. A cursor marked
/// 0xfe switches its channel off; one without a pattern, or past 0x90, or
/// still waiting, does nothing else. Returns whether the pattern ended and a
/// new song position was read (every channel then starts over).
pub fn do_track(t: &mut TfmxCtx, pi: usize, track_start: usize, macro_start: usize, patt_start: usize) -> (r: bool)
    requires
        old(t).wf(),
        pi < MAX_CHANNELS,
    ensures
        seq_kept(old(t), final(t)),
        (final(t).visit_model(), r) == track_visit(old(t).visit_model(), old(t).editbuf@, pi as int, track_start as int,
            macro_start as int, patt_start as int, old(t).danger_freak_hack),
        ({
            let p = old(t).pdblk.p@[pi as int];
            let waiting = Pdb { wait: u8_specs::wrapping_sub(p.wait, 1), ..p };
            if p.num == 0xfe {
                &&& !r
                &&& final(t).seq_model() == with_pdb(old(t).seq_model(), pi as int, Pdb { num: 0xff, ..p })
                &&& final(t).cue == old(t).cue
                &&& (final(t).cdb@, final(t).hdb@) == channel_off_effect(old(t).cdb@, old(t).hdb@, (p.xpose & 0xf) as int)
            } else if p.addr == 0 || p.num >= 0x90 {
                !r && *final(t) == *old(t)
            } else if p.wait != 0 {
                !r && final(t).hdb == old(t).hdb && final(t).pat_model() == (PatModel {
                    m: with_pdb(old(t).seq_model(), pi as int, waiting),
                    ..old(t).pat_model()
                })
            } else {
                final(t).hdb == old(t).hdb && (final(t).pat_model(), r) == pattern_run(
                    PatModel { m: with_pdb(old(t).seq_model(), pi as int, waiting), ..old(t).pat_model() },
                    old(t).editbuf@,
                    pi as int,
                    track_start as int,
                    macro_start as int,
                    patt_start as int,
                    old(t).danger_freak_hack,
                    PATTERN_STEP_LIMIT as nat,
                )
            }
        }),
{
    let mut p = t.pdblk.p[pi];
    if p.num == 0xfe {
        p.num = 0xff;
        t.pdblk.p.set(pi, p);
        let xp = p.xpose;
        assert((xp & 0xf) < 16i8 && (xp & 0xf) >= 0i8) by (bit_vector);
        let ci = (xp & 0xf) as usize;
        channel_off(t, ci);
        return false;
    }
    if p.addr == 0 || p.num >= 0x90 {
        return false;
    }
    let p_wait = p.wait;
    p.wait = p.wait.wrapping_sub(1);
    t.pdblk.p.set(pi, p);
    if p_wait != 0 {
        return false;
    }
    let ghost start = t.pat_model();
    let ghost p0 = old(t).pdblk.p@[pi as int];
    assert(start == (PatModel {
        m: with_pdb(old(t).seq_model(), pi as int, Pdb { wait: u8_specs::wrapping_sub(p0.wait, 1), ..p0 }),
        ..old(t).pat_model()
    }));
    let mut fuel: u32 = PATTERN_STEP_LIMIT;
    while fuel > 0
        invariant
            seq_kept(old(t), t),
            pi < MAX_CHANNELS,
            p0 == old(t).pdblk.p@[pi as int],
            t.hdb == old(t).hdb,
            p0.num != 0xfe,
            !(p0.addr == 0 || p0.num >= 0x90),
            p0.wait == 0,
            start == (PatModel {
                m: with_pdb(old(t).seq_model(), pi as int, Pdb { wait: u8_specs::wrapping_sub(p0.wait, 1), ..p0 }),
                ..old(t).pat_model()
            }),
            t.danger_freak_hack == old(t).danger_freak_hack,
            pattern_run(t.pat_model(), t.editbuf@, pi as int, track_start as int, macro_start as int,
                patt_start as int, t.danger_freak_hack, fuel as nat)
                == pattern_run(start, old(t).editbuf@, pi as int, track_start as int, macro_start as int,
                patt_start as int, old(t).danger_freak_hack, PATTERN_STEP_LIMIT as nat),
        decreases fuel,
    {
        fuel = fuel - 1;
        match pattern_instr(t, pi, track_start, macro_start, patt_start) {
            PatFlow::Go => {},
            PatFlow::Wait => {
                return false;
            },
            PatFlow::Ended => {
                return true;
            },
        }
    }
    false
}

/// The state that the sequencer's tick changes.
pub struct VisitModel {
    pub pm: PatModel,
    pub hdb: Seq<Hdb>,
}

impl TfmxCtx {
    pub open spec fn visit_model(&self) -> VisitModel {
        VisitModel { pm: self.pat_model(), hdb: self.hdb@ }
    }
}

/// One visit of channel `pi` in a sequencer step (what `do_track` does),
/// and whether the pattern ended: a cursor marked 0xfe switches its channel
/// off; one without a pattern or past 0x90 does nothing; a waiting one
/// counts its wait down; otherwise its pattern runs.
pub open spec fn track_visit(v: VisitModel, buf: Seq<u32>, pi: int, ts: int, ms: int, ps: int, dfh: bool) -> (VisitModel, bool) {
    let m = v.pm.m;
    let p = m.p[pi];
    let waiting = Pdb { wait: u8_specs::wrapping_sub(p.wait, 1), ..p };
    if p.num == 0xfe {
        let off = channel_off_effect(v.pm.cdb, v.hdb, (p.xpose & 0xf) as int);
        (VisitModel { pm: PatModel { m: with_pdb(m, pi, Pdb { num: 0xff, ..p }), cdb: off.0, cue: v.pm.cue }, hdb: off.1 }, false)
    } else if p.addr == 0 || p.num >= 0x90 {
        (v, false)
    } else if p.wait != 0 {
        (VisitModel { pm: PatModel { m: with_pdb(m, pi, waiting), ..v.pm }, ..v }, false)
    } else {
        let r = pattern_run(PatModel { m: with_pdb(m, pi, waiting), ..v.pm }, buf, pi, ts, ms, ps, dfh, PATTERN_STEP_LIMIT as nat);
        (VisitModel { pm: r.0, ..v }, r.1)
    }
}

/// Visiting the channels from `x` on, starting over from channel 0 each
/// time a pattern ends, for at most `fuel` visits.
#[verifier::opaque]
pub open spec fn visits(v: VisitModel, x: int, fuel: nat, buf: Seq<u32>, ts: int, ms: int, ps: int, dfh: bool) -> VisitModel
    decreases fuel,
{
    if x >= MAX_CHANNELS || x < 0 || fuel == 0 {
        v
    } else {
        let r = track_visit(v, buf, x, ts, ms, ps, dfh);
        visits(r.0, if r.1 { 0 } else { x + 1 }, (fuel - 1) as nat, buf, ts, ms, ps, dfh)
    }
}

/// One tick of the sequencer: the tick count rises; the tempo counter
/// counts down, and when it has run out it is reloaded (with the prescale,
/// or 5 with `oops`) and every channel is visited.
pub open spec fn tracks_tick(v: VisitModel, oops: bool, buf: Seq<u32>, ts: int, ms: int, ps: int, dfh: bool) -> VisitModel {
    let m = v.pm.m;
    let j = i32_specs::wrapping_add(m.jiffies, 1);
    if m.mdb.speed_cnt != 0 {
        VisitModel { pm: PatModel { m: SeqModel { jiffies: j, mdb: Mdb { speed_cnt: (m.mdb.speed_cnt - 1) as u16, ..m.mdb }, ..m }, ..v.pm }, ..v }
    } else {
        let m0 = SeqModel { jiffies: j, mdb: Mdb { speed_cnt: if oops { 5 } else { m.prescale }, ..m.mdb }, ..m };
        visits(VisitModel { pm: PatModel { m: m0, ..v.pm }, ..v }, 0, TRACKS_VISIT_LIMIT as nat, buf, ts, ms, ps, dfh)
    }
}

/// One tick of the sequencer: when the tempo counter runs out, every
/// channel's pattern runs one step (all over again when one of them moves
/// the song on).
pub fn do_tracks(t: &mut TfmxCtx, track_start: usize, macro_start: usize, patt_start: usize)
    requires
        old(t).wf(),
    ensures
        seq_kept(old(t), final(t)),
        old(t).mdb.speed_cnt != 0 ==> {
            &&& final(t).seq_model() == (SeqModel {
                jiffies: i32_specs::wrapping_add(old(t).jiffies, 1),
                mdb: Mdb { speed_cnt: (old(t).mdb.speed_cnt - 1) as u16, ..old(t).mdb },
                ..old(t).seq_model()
            })
            &&& final(t).cdb == old(t).cdb
            &&& final(t).hdb == old(t).hdb
            &&& final(t).cue == old(t).cue
        },
        final(t).visit_model() == tracks_tick(old(t).visit_model(), old(t).oops_up_hack, old(t).editbuf@,
            track_start as int, macro_start as int, patt_start as int, old(t).danger_freak_hack),
{
    t.jiffies = t.jiffies.wrapping_add(1);
    let ready = t.mdb.speed_cnt == 0;
    t.mdb.speed_cnt = t.mdb.speed_cnt.wrapping_sub(1);
    if ready {
        t.mdb.speed_cnt = t.pdblk.prescale;
        // tempo fix for one title
        if t.oops_up_hack {
            t.mdb.speed_cnt = 5;
        }
        let ghost v0 = t.visit_model();
        let mut x: usize = 0;
        let mut fuel: u32 = TRACKS_VISIT_LIMIT;
        while x < MAX_CHANNELS && fuel > 0
            invariant
                seq_kept(old(t), t),
                x <= MAX_CHANNELS,
                t.danger_freak_hack == old(t).danger_freak_hack,
                visits(t.visit_model(), x as int, fuel as nat, t.editbuf@, track_start as int, macro_start as int,
                    patt_start as int, t.danger_freak_hack) == visits(v0, 0, TRACKS_VISIT_LIMIT as nat, old(t).editbuf@,
                    track_start as int, macro_start as int, patt_start as int, old(t).danger_freak_hack),
            decreases fuel,
        {
            proof {
                reveal(visits);
            }
            fuel = fuel - 1;
            if do_track(t, x, track_start, macro_start, patt_start) {
                x = 0;
            } else {
                x = x + 1;
            }
        }
        proof {
            reveal(visits);
        }
    }
}

/// One timer interrupt of the engine: the macro interpreter, then the
/// sequencer. Does nothing while the player is disabled.
pub fn tfmx_irq_in(header: &Header, t: &mut TfmxCtx)
    requires
        old(t).wf(),
    ensures
        seq_kept(old(t), final(t)),
        !old(t).mdb.player_enable ==> *final(t) == *old(t),
        old(t).mdb.player_enable ==> ({
            let a = all_channels_tick(old(t).macro_model(), old(t).editbuf@, header.macro_start as int, old(t).multimode,
                old(t).gemx, old(t).danger_freak_hack, old(t).out_rate);
            let v = VisitModel {
                pm: PatModel { m: SeqModel { mdb: a.mdb, ..old(t).seq_model() }, cdb: a.cdb, cue: a.cue },
                hdb: a.hdb,
            };
            final(t).visit_model() == if old(t).mdb.curr_song >= 0 {
                tracks_tick(v, old(t).oops_up_hack, old(t).editbuf@, header.track_start as int, header.macro_start as int,
                    header.patt_start as int, old(t).danger_freak_hack)
            } else {
                v
            }
        }),
{
    if !t.mdb.player_enable {
        return;
    }
    do_all_macros(t, header.macro_start);
    if t.mdb.curr_song >= 0 {
        do_tracks(t, header.track_start, header.macro_start, header.patt_start);
    }
}

} // verus!

verus! {

/// Brings the engine to rest before a song starts: the player is stopped,
/// channel `i` is bound to voice `i` and switched off, and no pattern runs.
pub fn init(t: &mut TfmxCtx)
    requires
        old(t).wf(),
    ensures
        final(t).wf(),
        final(t).same_program(old(t)),
        !final(t).mdb.player_enable,
        forall|i: int| 0 <= i < MAX_CHANNELS ==> {
            &&& (#[trigger] final(t).cdb@[i]).hw_idx == i
            &&& final(t).hdb@[i].cdb_idx == Some(i as usize)
            &&& final(t).hdb@[i].mode == 0
            &&& final(t).hdb@[i].vol == 0
            &&& final(t).hdb@[i].loop_fn == LoopBehavior::Off
            &&& final(t).pdblk.p@[i].num == 0xff
            &&& final(t).pdblk.p@[i].addr == 0
        },
        forall|i: int| 0 <= i < NUM_CDB && old(t).cdb@[i].at_rest() ==> #[trigger] final(t).cdb@[i].at_rest(),
        final(t).cue == old(t).cue,
        final(t).loops == old(t).loops,
        final(t).multimode == old(t).multimode,
{
    t.prepare();
    assert forall|i: int| 0 <= i < MAX_CHANNELS implies (#[trigger] t.hdb@[i]).loop_fn == LoopBehavior::Off by {
        assert(t.cdb@[i].hw_idx == i);
    }
    let ghost t1 = *t;
    let mut ch: usize = 0;
    while ch < MAX_CHANNELS
        invariant
            ch <= MAX_CHANNELS,
            t.wf(),
            t.same_program(old(t)),
            !t.mdb.player_enable,
            forall|i: int| 0 <= i < MAX_CHANNELS ==> (#[trigger] t.cdb@[i]).hw_idx == i,
            forall|i: int| 0 <= i < MAX_CHANNELS ==> (#[trigger] t1.cdb@[i]).sfx_flag == 0,
            forall|i: int| 0 <= i < MAX_CHANNELS ==> (#[trigger] t.hdb@[i]).loop_fn == LoopBehavior::Off,
            forall|i: int| ch <= i < MAX_CHANNELS ==> #[trigger] t.cdb@[i] == t1.cdb@[i],
            forall|i: int| 0 <= i < ch ==> {
                &&& (#[trigger] t.hdb@[i]).cdb_idx == Some(i as usize)
                &&& t.hdb@[i].mode == 0
                &&& t.hdb@[i].vol == 0
                &&& t.pdblk.p@[i].num == 0xff
                &&& t.pdblk.p@[i].addr == 0
            },
            forall|i: int| 0 <= i < NUM_CDB && old(t).cdb@[i].at_rest() ==> #[trigger] t.cdb@[i].at_rest(),
            t.cue == old(t).cue,
            t.loops == old(t).loops,
            t.multimode == old(t).multimode,
        decreases MAX_CHANNELS - ch,
    {
        let mut hw = t.hdb[ch];
        hw.cdb_idx = Some(ch);
        t.hdb.set(ch, hw);
        let mut p = t.pdblk.p[ch];
        p.num = 0xff;
        p.addr = 0;
        t.pdblk.p.set(ch, p);
        channel_off(t, ch);
        ch = ch + 1;
    }
}

/// The sequencer state from which subsong `song` reads its first track
/// row: master volume 0x40, no fade, no track loop, the song's first and
/// last position, its tempo (a timer value from 0x10 up, else a prescale),
/// and every pattern cursor cleared.
pub open spec fn song_start(m: SeqModel, h: &Header, song: u8) -> SeqModel {
    let tempo = h.song_tempos@[song as int];
    let timed = tempo >= 0x10;
    let ec: u32 = if timed { (TEMPO_CLOCK / tempo as u32) as u32 } else { DEFAULT_E_CLOCKS };
    SeqModel {
        first_pos: h.song_starts@[song as int],
        curr_pos: h.song_starts@[song as int],
        last_pos: h.song_ends@[song as int],
        prescale: if timed { 0 } else { tempo },
        e_clocks: ec,
        mdb: Mdb {
            player_enable: false,
            master_vol: 0x40,
            fade_slope: 0,
            track_loop: -1i16,
            play_patt_flag: 0,
            cia_save: if timed { ec as u16 } else { 14318 },
            ..m.mdb
        },
        p: Seq::new(8, |i: int| Pdb { addr: 0, num: 0xff, xpose: 0, step: 0, ..m.p[i] }),
        ..m
    }
}

/// Puts the sequencer in the state from which subsong `song` reads its
/// first track row (with `mode` 2, only the volume, fade, loop and timer
/// are reset and the pattern cursors cleared).
#[verifier::rlimit(60)]
fn song_setup(song: u8, mode: i32, header: &Header, t: &mut TfmxCtx)
    requires
        old(t).wf(),
        header.wf(),
        song < MAX_SONGS,
    ensures
        seq_kept(old(t), final(t)),
        final(t).cdb == old(t).cdb,
        final(t).hdb == old(t).hdb,
        final(t).cue == old(t).cue,
        mode != 2 ==> final(t).seq_model() == song_start(old(t).seq_model(), header, song),
{
    t.mdb.player_enable = false;
    t.mdb.master_vol = 0x40;
    t.mdb.fade_slope = 0;
    t.mdb.track_loop = -1;
    t.mdb.play_patt_flag = 0;
    t.e_clocks = DEFAULT_E_CLOCKS;
    t.mdb.cia_save = 14318;
    if mode != 2 {
        t.pdblk.first_pos = header.song_starts[song as usize];
        t.pdblk.curr_pos = header.song_starts[song as usize];
        t.pdblk.last_pos = header.song_ends[song as usize];
        let tempo = header.song_tempos[song as usize];
        if tempo >= 0x10 {
            t.e_clocks = TEMPO_CLOCK / tempo as u32;
            t.mdb.cia_save = t.e_clocks as u16;
            t.pdblk.prescale = 0;
        } else {
            t.pdblk.prescale = tempo;
        }
    }
    let ghost before = t.seq_model();
    let mut ch: usize = 0;
    while ch < MAX_CHANNELS
        invariant
            ch <= MAX_CHANNELS,
            seq_kept(old(t), t),
            t.cdb == old(t).cdb,
            t.hdb == old(t).hdb,
            t.cue == old(t).cue,
            t.seq_model() == (SeqModel { p: t.pdblk.p@, ..before }),
            forall|i: int| 0 <= i < ch ==> #[trigger] t.pdblk.p@[i] == (Pdb { addr: 0, num: 0xff, xpose: 0, step: 0, ..old(t).pdblk.p@[i] }),
            forall|i: int| ch <= i < 8 ==> #[trigger] t.pdblk.p@[i] == old(t).pdblk.p@[i],
        decreases MAX_CHANNELS - ch,
    {
        let mut p = t.pdblk.p[ch];
        p.addr = 0;
        p.num = 0xff;
        p.xpose = 0;
        p.step = 0;
        t.pdblk.p.set(ch, p);
        ch = ch + 1;
    }
    assert(t.pdblk.p@ =~= Seq::new(8, |i: int| Pdb { addr: 0, num: 0xff, xpose: 0, step: 0, ..old(t).pdblk.p@[i] }));
}

/// Starts subsong `song`: resets the master volume and the timer, and
/// (unless `mode` is 2, which keeps the song positions and the patterns)
/// takes the song's first and last position and tempo from the header and
/// reads the first track row. The player is enabled afterwards.
pub fn start_song(song: u8, mode: i32, header: &Header, t: &mut TfmxCtx)
    requires
        old(t).wf(),
        header.wf(),
        song < MAX_SONGS,
    ensures
        seq_kept(old(t), final(t)),
        final(t).cdb == old(t).cdb,
        final(t).hdb == old(t).hdb,
        final(t).cue == old(t).cue,
        final(t).mdb.player_enable,
        final(t).mdb.speed_cnt == 0,
        !final(t).mdb.end_flag,
        mode != 2 ==> final(t).pdblk.first_pos == header.song_starts@[song as int],
        mode != 2 ==> final(t).pdblk.last_pos == header.song_ends@[song as int],
        mode != 2 ==> ({
            let r = track_rows(song_start(old(t).seq_model(), header, song), old(t).editbuf@,
                header.track_start as int, header.patt_start as int, TRACK_STEP_LIMIT as nat);
            final(t).seq_model() == (SeqModel {
                mdb: Mdb { end_flag: false, speed_cnt: 0, player_enable: true, ..r.mdb },
                ..r
            })
        }),
{
    song_setup(song, mode, header, t);
    if mode != 2 {
        get_track_step(t, header.track_start, header.patt_start);
    }
    t.mdb.end_flag = false;
    t.mdb.speed_cnt = 0;
    t.mdb.player_enable = true;
}

} // verus!
