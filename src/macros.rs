//! The macro interpreter: per-channel bytecode that drives pitch, volume,
//! envelopes and the triggering of voices, and the per-tick effects.
use vstd::prelude::*;
use crate::ctx::{fetch, fetch_entry, table_entry, word_at, TfmxCtx};
use crate::notes::{note_period, noteval};
use crate::state::{Cdb, Hdb, LoopBehavior, Mdb, MAX_CHANNELS, NUM_CDB};
use crate::word::{byte_of, with_byte_of, U32Be};
use vstd::wrapping::{i16_specs, i32_specs, i8_specs, u16_specs, u32_specs, u8_specs};

verus! {

/// The channel that a note event `w` is addressed to.
pub open spec fn note_target(w: u32, multimode: bool) -> int {
    (byte_of(w, 2) & (if multimode { 7u8 } else { 3u8 })) as int
}

/// What a note event `w` does to the channel block `c`; `mptr` is the entry
/// of the macro table that the event names.
pub open spec fn note_effect(c: Cdb, w: u32, dfh: bool, mptr: u32) -> Cdb {
    let b0 = byte_of(w, 0);
    let b1 = byte_of(w, 1);
    let b2 = byte_of(w, 2);
    let b3 = byte_of(w, 3);
    if b0 == 0xfc {
        Cdb { sfx_flag: b1, sfx_lock_time: b3 as i16, ..c }
    } else if c.sfx_flag != 0 {
        c
    } else if b0 < 0xc0 {
        Cdb {
            fine_tune: if dfh { 0 } else { b3 },
            velocity: (b2 >> 4u8) & 0xf,
            prev_note: c.curr_note,
            curr_note: b0,
            really_wait: 1,
            new_style_macro: 0xff,
            macro_num: b1 as u16,
            macro_ptr: mptr,
            macro_step: 0,
            efx_run: 0,
            macro_wait: 0,
            key_up: 1,
            loop_: -1i16,
            macro_run: -1i8,
            ..c
        }
    } else if b0 < 0xf0 {
        Cdb {
            porta_reset: b1,
            porta_time: 1,
            porta_per: if c.porta_rate == 0 { c.dest_period } else { c.porta_per },
            porta_rate: b3 as i16,
            curr_note: b0 & 0x3f,
            dest_period: note_period(b0 & 0x3f),
            ..c
        }
    } else if b0 == 0xf7 {
        Cdb {
            env_rate: b1,
            env_reset: ((b2 >> 4u8) + 1) as u8,
            env_time: ((b2 >> 4u8) + 1) as u8,
            env_end_vol: b3 as i8,
            ..c
        }
    } else if b0 == 0xf6 {
        Cdb {
            vib_reset: (b1 & 0xfe) >> 1u8,
            vib_time: (b1 & 0xfe) >> 1u8,
            vib_width: b3 as i8,
            vib_flag: 1,
            vib_offset: 0,
            ..c
        }
    } else if b0 == 0xf5 {
        Cdb { key_up: 0, ..c }
    } else {
        c
    }
}

/// Dispatches the note event `w` to the channel it names: starts a macro,
/// starts a portamento, sets an envelope or a vibrato, releases a key, or
/// locks the channel against further notes.
pub fn note_port(t: &mut TfmxCtx, w: u32, macro_start: usize)
    requires
        old(t).wf(),
    ensures
        final(t).wf(),
        final(t).same_program(old(t)),
        final(t).same_mapping(old(t)),
        final(t).cdb@ == old(t).cdb@.update(
            note_target(w, old(t).multimode),
            note_effect(
                old(t).cdb@[note_target(w, old(t).multimode)],
                w,
                old(t).danger_freak_hack,
                table_entry(old(t).editbuf@, macro_start as int, byte_of(w, 1) as int),
            ),
        ),
        final(t).hdb == old(t).hdb,
        final(t).mdb == old(t).mdb,
        final(t).pdblk == old(t).pdblk,
        final(t).cue == old(t).cue,
        final(t).multimode == old(t).multimode,
        final(t).loops == old(t).loops,
        final(t).jiffies == old(t).jiffies,
        final(t).e_clocks == old(t).e_clocks,
{
    let word = U32Be::from_ne(w);
    let b0 = word.byte(0);
    let b1 = word.byte(1);
    let b2 = word.byte(2);
    let b3 = word.byte(3);
    let mask: u8 = if t.multimode { 7 } else { 3 };
    let ci = (b2 & mask) as usize;
    assert((b2 & mask) < 8) by (bit_vector)
        requires mask == 7u8 || mask == 3u8;
    let mptr = fetch_entry(&t.editbuf, macro_start, b1 as usize);
    let mut c = t.cdb[ci];
    if b0 == 0xfc {
        c.sfx_flag = b1;
        c.sfx_lock_time = b3 as i16;
    } else if c.sfx_flag != 0 {
    } else if b0 < 0xc0 {
        c.fine_tune = if t.danger_freak_hack { 0 } else { b3 };
        c.velocity = (b2 >> 4u8) & 0xf;
        c.prev_note = c.curr_note;
        c.curr_note = b0;
        c.really_wait = 1;
        c.new_style_macro = 0xff;
        c.macro_num = b1 as u16;
        c.macro_ptr = mptr;
        c.macro_step = 0;
        c.efx_run = 0;
        c.macro_wait = 0;
        c.key_up = 1;
        c.loop_ = -1;
        c.macro_run = -1;
    } else if b0 < 0xf0 {
        c.porta_reset = b1;
        c.porta_time = 1;
        if c.porta_rate == 0 {
            c.porta_per = c.dest_period;
        }
        c.porta_rate = b3 as i16;
        c.curr_note = b0 & 0x3f;
        assert((b0 & 0x3f) < 64u8) by (bit_vector);
        c.dest_period = noteval(c.curr_note);
    } else if b0 == 0xf7 {
        c.env_rate = b1;
        assert((b2 >> 4u8) < 16u8) by (bit_vector);
        c.env_reset = (b2 >> 4u8) + 1;
        c.env_time = (b2 >> 4u8) + 1;
        c.env_end_vol = b3 as i8;
    } else if b0 == 0xf6 {
        c.vib_reset = (b1 & 0xfe) >> 1u8;
        c.vib_time = c.vib_reset;
        c.vib_width = b3 as i8;
        c.vib_flag = 1;
        c.vib_offset = 0;
    } else if b0 == 0xf5 {
        c.key_up = 0;
    }
    t.cdb.set(ci, c);
}

} // verus!

verus! {

/// What switching channel `ci` off does to the channel and voice blocks:
/// unless a sound effect holds it, the channel stops its macro, loses its
/// volume and sample window, and its voice falls silent with plain looping.
pub open spec fn channel_off_effect(cdb: Seq<Cdb>, hdb: Seq<Hdb>, ci: int) -> (Seq<Cdb>, Seq<Hdb>) {
    let c = cdb[ci];
    if c.sfx_flag != 0 {
        (cdb, hdb)
    } else {
        let c1 = Cdb {
            add_begin_time: 0,
            add_begin_reset: 0,
            macro_run: 0,
            new_style_macro: 0xff,
            save_addr: 0,
            cur_vol: 0,
            save_len: 1,
            curr_len: 1,
            ..c
        };
        let h = hdb[c.hw_idx as int];
        (cdb.update(ci, c1), hdb.update(c.hw_idx as int, Hdb { mode: 0, vol: 0, loop_fn: LoopBehavior::Off, cdb_idx: Some(ci as usize), ..h }))
    }
}

/// Brings channel `ci` to rest, unless a sound effect holds it.
pub fn channel_off(t: &mut TfmxCtx, ci: usize)
    requires
        old(t).wf(),
        ci < NUM_CDB,
    ensures
        final(t).wf(),
        final(t).same_program(old(t)),
        final(t).same_mapping(old(t)),
        (final(t).cdb@, final(t).hdb@) == channel_off_effect(old(t).cdb@, old(t).hdb@, ci as int),
        old(t).cdb@[ci as int].sfx_flag != 0 ==> final(t).cdb == old(t).cdb && final(t).hdb == old(t).hdb,
        old(t).cdb@[ci as int].sfx_flag == 0 ==> {
            let c = final(t).cdb@[ci as int];
            let hw = final(t).hdb@[c.hw_idx as int];
            &&& c.macro_run == 0 && c.cur_vol == 0 && c.save_addr == 0
            &&& c.save_len == 1 && c.curr_len == 1 && c.new_style_macro == 0xff
            &&& c.add_begin_time == 0 && c.add_begin_reset == 0
            &&& hw.mode == 0 && hw.vol == 0 && hw.loop_fn == LoopBehavior::Off
            &&& hw.cdb_idx == Some(ci)
            &&& forall|j: int| 0 <= j < NUM_CDB && j != ci ==> #[trigger] final(t).cdb@[j] == old(t).cdb@[j]
            &&& forall|j: int| 0 <= j < MAX_CHANNELS && j != c.hw_idx ==> #[trigger] final(t).hdb@[j] == old(t).hdb@[j]
        },
        forall|j: int| 0 <= j < NUM_CDB && old(t).cdb@[j].at_rest() ==> #[trigger] final(t).cdb@[j].at_rest(),
        final(t).mdb == old(t).mdb,
        final(t).pdblk == old(t).pdblk,
        final(t).cue == old(t).cue,
        final(t).multimode == old(t).multimode,
        final(t).loops == old(t).loops,
        final(t).jiffies == old(t).jiffies,
        final(t).e_clocks == old(t).e_clocks,
{
    let mut c = t.cdb[ci];
    if c.sfx_flag == 0 {
        c.add_begin_time = 0;
        c.add_begin_reset = 0;
        c.macro_run = 0;
        c.new_style_macro = 0xff;
        c.save_addr = 0;
        c.cur_vol = 0;
        c.save_len = 1;
        c.curr_len = 1;
        t.cdb.set(ci, c);
        let mut hw = t.hdb[c.hw_idx];
        hw.mode = 0;
        hw.vol = 0;
        hw.loop_fn = LoopBehavior::Off;
        hw.cdb_idx = Some(ci);
        t.hdb.set(c.hw_idx, hw);
    }
}

/// What the loop behaviour of voice `hw` does to it and to the channel
/// blocks when its window runs out.
pub open spec fn loop_effect(hw: Hdb, cdb: Seq<Cdb>) -> (Hdb, Seq<Cdb>) {
    match (hw.loop_fn, hw.cdb_idx) {
        (LoopBehavior::PendingDmaWait, Some(k)) if k < NUM_CDB => {
            let c = cdb[k as int];
            let c1 = Cdb { wait_dma_count: u16_specs::wrapping_sub(c.wait_dma_count, 1), ..c };
            if c.wait_dma_count != 0 {
                (hw, cdb.update(k as int, c1))
            } else {
                (Hdb { loop_fn: LoopBehavior::Off, ..hw }, cdb.update(k as int, Cdb { macro_run: -1i8, ..c1 }))
            }
        },
        _ => (hw, cdb),
    }
}

/// The loop behaviour of a voice whose window has run out: counts down the
/// owning channel's DMA wait and, when it was already zero, switches the
/// voice back to plain looping and restarts the channel's macro. Returns
/// whether the voice goes on playing, which it always does.
pub fn run_loop_fn(hw: &mut Hdb, cdb: &mut Vec<Cdb>) -> (r: i32)
    requires
        old(cdb)@.len() == NUM_CDB,
    ensures
        r == 1,
        (*final(hw), final(cdb)@) == loop_effect(*old(hw), old(cdb)@),
        final(cdb)@.len() == NUM_CDB,
        forall|j: int| 0 <= j < NUM_CDB ==> #[trigger] final(cdb)@[j].hw_idx == old(cdb)@[j].hw_idx,
        old(hw).loop_fn == LoopBehavior::Off ==> *final(hw) == *old(hw) && final(cdb)@ == old(cdb)@,
        final(hw).pos == old(hw).pos && final(hw).delta == old(hw).delta,
        final(hw).slen == old(hw).slen && final(hw).sample_len == old(hw).sample_len,
        final(hw).sbeg == old(hw).sbeg && final(hw).sample_start == old(hw).sample_start,
        final(hw).mode == old(hw).mode,
{
    match hw.loop_fn {
        LoopBehavior::Off => loop_off(),
        LoopBehavior::PendingDmaWait => loop_on(hw, cdb),
    }
}

/// Plain looping: nothing to do.
pub fn loop_off() -> (r: i32)
    ensures
        r == 1,
{
    1
}

/// Looping that waits for a number of DMA rounds before it hands control
/// back to the channel's macro.
pub fn loop_on(hw: &mut Hdb, cdb: &mut Vec<Cdb>) -> (r: i32)
    requires
        old(cdb)@.len() == NUM_CDB,
    ensures
        r == 1,
        old(hw).loop_fn == LoopBehavior::PendingDmaWait ==> (*final(hw), final(cdb)@) == loop_effect(*old(hw), old(cdb)@),
        final(cdb)@.len() == NUM_CDB,
        forall|j: int| 0 <= j < NUM_CDB ==> #[trigger] final(cdb)@[j].hw_idx == old(cdb)@[j].hw_idx,
        match old(hw).cdb_idx {
            Some(k) if k < NUM_CDB => {
                let c = old(cdb)@[k as int];
                &&& final(cdb)@[k as int].wait_dma_count == (if c.wait_dma_count == 0 { 0xffff } else { (c.wait_dma_count - 1) as u16 })
                &&& c.wait_dma_count != 0 ==> *final(hw) == *old(hw) && final(cdb)@[k as int].macro_run == c.macro_run
                &&& c.wait_dma_count == 0 ==> final(hw).loop_fn == LoopBehavior::Off && final(cdb)@[k as int].macro_run == -1
            },
            _ => *final(hw) == *old(hw) && final(cdb)@ == old(cdb)@,
        },
        final(hw).pos == old(hw).pos && final(hw).delta == old(hw).delta,
        final(hw).slen == old(hw).slen && final(hw).sample_len == old(hw).sample_len,
        final(hw).sbeg == old(hw).sbeg && final(hw).sample_start == old(hw).sample_start,
        final(hw).mode == old(hw).mode,
{
    let k = match hw.cdb_idx {
        Some(k) => k,
        None => {
            return 1;
        },
    };
    if k >= cdb.len() {
        return 1;
    }
    let mut c = cdb[k];
    let wait_dma = c.wait_dma_count;
    c.wait_dma_count = c.wait_dma_count.wrapping_sub(1);
    if wait_dma != 0 {
        cdb.set(k, c);
        return 1;
    }
    hw.loop_fn = LoopBehavior::Off;
    c.macro_run = -1;
    cdb.set(k, c);
    1
}

/// The fade that `do_fade(sp, dv)` sets up on the global block `m`.
pub open spec fn fade_set(m: Mdb, sp: i32, dv: i32) -> Mdb {
    let m1 = Mdb { fade_dest: dv as i8, fade_reset: sp as i8, fade_time: sp as i8, ..m };
    if sp == 0 || m.master_vol == sp as i8 {
        Mdb { master_vol: dv as i8, fade_slope: 0, ..m1 }
    } else {
        Mdb { fade_slope: if m.master_vol > dv as i8 { -1i8 } else { 1i8 }, ..m1 }
    }
}

/// Sets up a fade of the master volume towards `dv`, one step every `sp`
/// ticks; with `sp` zero, or equal to the volume now, the volume jumps.
pub fn do_fade(sp: i32, dv: i32, mdb: &mut Mdb)
    ensures
        *final(mdb) == fade_set(*old(mdb), sp, dv),
        final(mdb).fade_dest == dv as i8,
        final(mdb).fade_reset == sp as i8,
        final(mdb).fade_time == sp as i8,
        sp == 0 || old(mdb).master_vol == sp as i8 ==> final(mdb).master_vol == dv as i8
            && final(mdb).fade_slope == 0,
        !(sp == 0 || old(mdb).master_vol == sp as i8) ==> final(mdb).master_vol == old(mdb).master_vol
            && final(mdb).fade_slope == (if old(mdb).master_vol > dv as i8 { -1i8 } else { 1i8 }),
        final(mdb).player_enable == old(mdb).player_enable,
        final(mdb).speed_cnt == old(mdb).speed_cnt,
        final(mdb).track_loop == old(mdb).track_loop,
        final(mdb).curr_song == old(mdb).curr_song,
{
    mdb.fade_dest = dv as i8;
    mdb.fade_reset = sp as i8;
    mdb.fade_time = sp as i8;
    if sp == 0 || mdb.master_vol == sp as i8 {
        mdb.master_vol = dv as i8;
        mdb.fade_slope = 0;
        return;
    }
    mdb.fade_slope = if mdb.master_vol > mdb.fade_dest { -1 } else { 1 };
}

} // verus!

verus! {

/// Most instructions the interpreter runs in one tick of one channel before
/// it yields; a program that never waits cannot stall the engine.
pub const MACRO_STEP_LIMIT: u32 = 0x10000;

/// How one macro instruction hands control back to the interpreter loop.
pub enum MacroStep {
    /// Go on with the next instruction.
    Next,
    /// Suspend the channel until its next tick.
    Stop,
    /// Dispatch this note event, then go on.
    Note(u32),
    /// Write a cue register, then go on.
    Cue(usize, u16),
}

/// The period of note `a + b1` of the table, scaled by the fine tune and by
/// `b3`.
pub open spec fn scaled_period(a: u8, b1: u8, fine_tune: u8, b3: u8) -> u32 {
    let n = ((a as int + b1 as int) % 256) as u8 & 0x3f;
    ((note_period(n) as int * (0x100 + fine_tune as int + b3 as int)) / 256) as u32
}

fn period_of(a: u8, b1: u8, fine_tune: u8, b3: u8) -> (r: u32)
    ensures
        r == scaled_period(a, b1, fine_tune, b3),
{
    let idx = a.wrapping_add(b1) & 0x3f;
    assert((a.wrapping_add(b1) & 0x3f) < 64u8) by (bit_vector);
    let note = noteval(idx) as u32;
    let p = note * (0x100 + fine_tune as u32 + b3 as u32);
    assert((p >> 8u32) == p / 256) by (bit_vector);
    p >> 8u32
}


/// The effect of macro instruction `op`, whose operand bytes are those of
/// `w` (byte 0 cleared), on channel block `c` (channel `ci`) and on the voice
/// `hw` that the channel drives; `entry` is the macro table entry that
/// operand byte 1 names. This is the instruction table of the format.
pub open spec fn op_effect(c: Cdb, hw: Hdb, w: u32, op: u8, ci: usize, gemx: bool, dfh: bool, entry: u32) -> (Cdb, Hdb, MacroStep) {
    let b1 = byte_of(w, 1);
    let b2 = byte_of(w, 2);
    let b3 = byte_of(w, 3);
    let hi = w as u16;
    let hs = w as i16;
    if op == 0 || op == 19 {
        // voice off, or (with a non-zero operand) silent decay
        let c1 = if op == 0 {
            Cdb {
                add_begin_time: 0,
                porta_rate: 0,
                vib_reset: 0,
                env_reset: 0,
                cur_vol: if gemx {
                    if b2 != 0 { b3 as i8 } else { (b3 as int + c.velocity as int * 3) as i8 }
                } else {
                    c.cur_vol
                },
                ..c
            }
        } else {
            c
        };
        if b1 == 0 {
            (c1, Hdb { loop_fn: LoopBehavior::Off, mode: 0, slen: if c1.new_style_macro != 0 { 0 } else { hw.slen }, ..hw }, MacroStep::Next)
        } else {
            (Cdb { new_style_macro: 0, ..c1 }, Hdb { loop_fn: LoopBehavior::Off, mode: hw.mode | 4, ..hw }, MacroStep::Stop)
        }
    } else if op == 1 {
        // voice on
        let c1 = Cdb { efx_run: b1 as i8, ..c };
        if c.new_style_macro == 0 || dfh {
            let sl: u16 = if c.save_len != 0 { c.save_len << 1u16 } else { 0 };
            (c1, Hdb {
                mode: 3,
                sample_start: c.save_addr as usize,
                sample_len: sl,
                sbeg: c.save_addr as usize,
                slen: sl,
                pos: 0,
                ..hw
            }, MacroStep::Next)
        } else {
            (c1, Hdb { mode: 1, ..hw }, MacroStep::Next)
        }
    } else if op == 2 {
        (Cdb { add_begin_time: 0, curr_addr: w, save_addr: w, ..c }, hw, MacroStep::Next)
    } else if op == 17 {
        let ca = u32_specs::wrapping_add(c.curr_addr, (hs as i32) as u32);
        (Cdb { add_begin_reset: b1, add_begin_time: b1, add_begin: hs as i32, curr_addr: ca, save_addr: ca, ..c }, hw, MacroStep::Next)
    } else if op == 3 {
        (Cdb { curr_len: hi, save_len: hi, ..c }, hw, MacroStep::Next)
    } else if op == 18 {
        let l = (c.curr_len as int + hs as int) as u16;
        (Cdb { curr_len: l, save_len: l, ..c }, hw, MacroStep::Next)
    } else if op == 4 {
        // wait
        if b1 & 1 != 0 && c.really_wait != 0 {
            (Cdb { really_wait: u8_specs::wrapping_add(c.really_wait, 1), ..c }, hw, MacroStep::Stop)
        } else {
            let rw = if b1 & 1 != 0 { u8_specs::wrapping_add(c.really_wait, 1) } else { c.really_wait };
            if c.new_style_macro == 0 {
                (Cdb { really_wait: rw, macro_wait: hi, new_style_macro: 0xff, ..c }, hw, MacroStep::Next)
            } else {
                (Cdb { really_wait: rw, macro_wait: hi, ..c }, hw, MacroStep::Stop)
            }
        }
    } else if op == 26 {
        // wait for DMA rounds
        let h1 = Hdb { loop_fn: LoopBehavior::PendingDmaWait, cdb_idx: Some(ci), ..hw };
        if c.new_style_macro == 0 {
            (Cdb { wait_dma_count: hi, macro_run: 0, new_style_macro: 0xff, ..c }, h1, MacroStep::Next)
        } else {
            (Cdb { wait_dma_count: hi, macro_run: 0, ..c }, h1, MacroStep::Stop)
        }
    } else if op == 28 {
        (if c.curr_note > b1 { Cdb { macro_step: hi, ..c } } else { c }, hw, MacroStep::Next)
    } else if op == 29 {
        (if c.cur_vol as int > b1 as int { Cdb { macro_step: hi, ..c } } else { c }, hw, MacroStep::Next)
    } else if op == 5 || op == 16 {
        // bounded loop (op 16 only while the key is down)
        if op == 16 && c.key_up == 0 {
            (c, hw, MacroStep::Next)
        } else {
            let l1 = i16_specs::wrapping_sub(c.loop_, 1);
            if c.loop_ == 0 {
                (Cdb { loop_: l1, ..c }, hw, MacroStep::Next)
            } else {
                (Cdb { loop_: if l1 < 0 { (b1 as int - 1) as i16 } else { l1 }, macro_step: hi, ..c }, hw, MacroStep::Next)
            }
        }
    } else if op == 7 {
        (Cdb { macro_run: 0, ..c }, hw, MacroStep::Stop)
    } else if op == 13 {
        if b2 != 0xfe {
            let v = (c.velocity as int * 3 + b3 as int) as i8;
            (Cdb { cur_vol: if v > 0x40 { 0x40 } else { v }, ..c }, hw, MacroStep::Next)
        } else {
            (c, hw, MacroStep::Next)
        }
    } else if op == 14 {
        (if b2 != 0xfe { Cdb { cur_vol: b3 as i8, ..c } } else { c }, hw, MacroStep::Next)
    } else if op == 33 {
        // a note for another channel, from this channel's note and velocity
        (c, hw, MacroStep::Note(with_byte_of(with_byte_of(w, 0, c.curr_note), 2, (b2 as i32 | (c.velocity as i32) << 4u32) as u8)))
    } else if op == 31 || op == 8 || op == 9 {
        let a: u8 = if op == 31 { c.prev_note } else if op == 8 { c.curr_note } else { 0 };
        let p = scaled_period(a, b1, c.fine_tune, b3);
        let c1 = Cdb { dest_period: p as u16, cur_period: if c.porta_rate == 0 { p as u16 } else { c.cur_period }, ..c };
        if c.new_style_macro == 0 {
            (Cdb { new_style_macro: 0xff, ..c1 }, hw, MacroStep::Next)
        } else {
            (c1, hw, MacroStep::Stop)
        }
    } else if op == 23 {
        (Cdb { dest_period: hi, cur_period: if c.porta_rate == 0 { hi } else { c.cur_period }, ..c }, hw, MacroStep::Next)
    } else if op == 11 {
        (Cdb {
            porta_reset: b1,
            porta_time: 1,
            porta_per: if c.porta_rate == 0 { c.dest_period } else { c.porta_per },
            porta_rate: hs,
            ..c
        }, hw, MacroStep::Next)
    } else if op == 12 {
        (Cdb {
            vib_reset: b1,
            vib_time: b1 >> 1u8,
            vib_width: b3 as i8,
            vib_flag: 1,
            cur_period: if c.porta_rate == 0 { c.dest_period } else { c.cur_period },
            vib_offset: if c.porta_rate == 0 { 0 } else { c.vib_offset },
            ..c
        }, hw, MacroStep::Next)
    } else if op == 15 {
        (Cdb { env_time: b2, env_reset: b2, env_end_vol: b3 as i8, env_rate: b1, ..c }, hw, MacroStep::Next)
    } else if op == 10 {
        (Cdb { add_begin_time: 0, porta_rate: 0, vib_reset: 0, env_reset: 0, ..c }, hw, MacroStep::Next)
    } else if op == 20 {
        // loop while the key is down
        let l0: i16 = if c.key_up == 0 { 0 } else { c.loop_ };
        if l0 == 0 {
            (Cdb { loop_: -1i16, ..c }, hw, MacroStep::Next)
        } else {
            (Cdb {
                loop_: if l0 == -1 { (b3 as int - 1) as i16 } else { i16_specs::wrapping_sub(l0, 1) },
                macro_step: u16_specs::wrapping_sub(c.macro_step, 1),
                ..c
            }, hw, MacroStep::Stop)
        }
    } else if op == 21 || op == 6 {
        // call (op 21 saves the return point) or jump to another macro
        let c1 = if op == 21 { Cdb { return_ptr: c.macro_ptr as u16, return_step: c.macro_step, ..c } } else { c };
        (Cdb { macro_num: entry as u16, macro_ptr: (entry as u16) as u32, macro_step: hi, loop_: -1i16, ..c1 }, hw, MacroStep::Next)
    } else if op == 22 {
        (Cdb { macro_ptr: c.return_ptr as u32, macro_step: c.return_step, ..c }, hw, MacroStep::Next)
    } else if op == 24 {
        let sa = u32_specs::wrapping_add(c.save_addr, (hi as u32) & 0xfffe);
        let sl = u16_specs::wrapping_sub(c.save_len, hi >> 1u16);
        (Cdb { save_addr: sa, save_len: sl, curr_len: sl, curr_addr: sa, ..c }, hw, MacroStep::Next)
    } else if op == 25 {
        (Cdb { add_begin_time: 0, curr_addr: 0, save_addr: 0, curr_len: 1, save_len: 1, ..c }, hw, MacroStep::Next)
    } else if op == 32 {
        (c, hw, MacroStep::Cue((b1 & 3) as usize, hi))
    } else if op == 34 {
        (Cdb { add_begin_time: 0, curr_addr: w, ..c }, hw, MacroStep::Next)
    } else {
        (c, hw, MacroStep::Next)
    }
}

/// Executes one macro instruction `op` (with its operand bytes in `word`) on
/// channel block `c` and the voice `hw` that the channel drives. `entry` is
/// the macro table entry that the operand byte 1 names.
#[verifier::rlimit(40)]
fn macro_op(
    c: &mut Cdb,
    hw: &mut Hdb,
    word: U32Be,
    op: u8,
    ci: usize,
    gemx: bool,
    dfh: bool,
    entry: u32,
) -> (r: MacroStep)
    ensures
        (*final(c), *final(hw), r) == op_effect(*old(c), *old(hw), word.0, op, ci, gemx, dfh, entry),
        final(c).hw_idx == old(c).hw_idx,
        r matches MacroStep::Cue(k, _) ==> k < 4,
{
    let b1 = word.byte(1);
    let b2 = word.byte(2);
    let b3 = word.byte(3);
    let hi = word.hi();
    let hi_signed = word.hi_signed();
    if op == 0 || op == 19 {
        if op == 0 {
            c.add_begin_time = 0;
            c.porta_rate = 0;
            c.vib_reset = 0;
            c.env_reset = 0;
            if gemx {
                if b2 != 0 {
                    c.cur_vol = b3 as i8;
                } else {
                    c.cur_vol = (b3 as i32 + c.velocity as i32 * 3) as i8;
                }
            }
        }
        hw.loop_fn = LoopBehavior::Off;
        if b1 == 0 {
            hw.mode = 0;
            if c.new_style_macro != 0 {
                hw.slen = 0;
            }
            MacroStep::Next
        } else {
            hw.mode = hw.mode | 4;
            c.new_style_macro = 0;
            MacroStep::Stop
        }
    } else if op == 1 {
        c.efx_run = b1 as i8;
        hw.mode = 1;
        if c.new_style_macro == 0 || dfh {
            // start the voice at once, with the saved window
            hw.sample_start = c.save_addr as usize;
            hw.sample_len = if c.save_len != 0 { c.save_len << 1u16 } else { 0 };
            hw.sbeg = hw.sample_start;
            hw.slen = hw.sample_len;
            hw.pos = 0;
            hw.mode = 3;
        }
        MacroStep::Next
    } else if op == 2 {
        c.add_begin_time = 0;
        c.curr_addr = word.whole();
        c.save_addr = c.curr_addr;
        MacroStep::Next
    } else if op == 17 {
        c.add_begin_reset = b1;
        c.add_begin_time = c.add_begin_reset;
        c.add_begin = hi_signed as i32;
        c.curr_addr = c.curr_addr.wrapping_add(c.add_begin as u32);
        c.save_addr = c.curr_addr;
        MacroStep::Next
    } else if op == 3 {
        c.curr_len = hi;
        c.save_len = c.curr_len;
        MacroStep::Next
    } else if op == 18 {
        c.curr_len = (c.curr_len as i32 + hi_signed as i32) as u16;
        c.save_len = c.curr_len;
        MacroStep::Next
    } else if op == 4 {
        if b1 & 1 != 0 {
            let really_wait = c.really_wait;
            c.really_wait = c.really_wait.wrapping_add(1);
            if really_wait != 0 {
                return MacroStep::Stop;
            }
        }
        c.macro_wait = hi;
        if c.new_style_macro == 0 {
            c.new_style_macro = 0xff;
            MacroStep::Next
        } else {
            MacroStep::Stop
        }
    } else if op == 26 {
        hw.loop_fn = LoopBehavior::PendingDmaWait;
        hw.cdb_idx = Some(ci);
        c.wait_dma_count = hi;
        c.macro_run = 0;
        if c.new_style_macro == 0 {
            c.new_style_macro = 0xff;
            MacroStep::Next
        } else {
            MacroStep::Stop
        }
    } else if op == 28 {
        if c.curr_note > b1 {
            c.macro_step = hi;
        }
        MacroStep::Next
    } else if op == 29 {
        if c.cur_vol as i32 > b1 as i32 {
            c.macro_step = hi;
        }
        MacroStep::Next
    } else if op == 5 || op == 16 {
        if op == 16 && c.key_up == 0 {
            return MacroStep::Next;
        }
        let l = c.loop_;
        c.loop_ = c.loop_.wrapping_sub(1);
        if l != 0 {
            if c.loop_ < 0 {
                c.loop_ = b1 as i16 - 1;
            }
            c.macro_step = hi;
        }
        MacroStep::Next
    } else if op == 7 {
        c.macro_run = 0;
        MacroStep::Stop
    } else if op == 13 {
        if b2 != 0xfe {
            let vol = (c.velocity as i32 * 3 + b3 as i32) as i8;
            c.cur_vol = if vol > 0x40 { 0x40 } else { vol };
        }
        MacroStep::Next
    } else if op == 14 {
        if b2 != 0xfe {
            c.cur_vol = b3 as i8;
        }
        MacroStep::Next
    } else if op == 33 {
        let mut w = word;
        w.set_byte(0, c.curr_note);
        w.set_byte(2, (b2 as i32 | (c.velocity as i32) << 4u32) as u8);
        MacroStep::Note(w.whole())
    } else if op == 31 || op == 8 || op == 9 {
        let a = if op == 31 { c.prev_note } else if op == 8 { c.curr_note } else { 0 };
        let period = period_of(a, b1, c.fine_tune, b3);
        c.dest_period = period as u16;
        if c.porta_rate == 0 {
            c.cur_period = period as u16;
        }
        if c.new_style_macro == 0 {
            c.new_style_macro = 0xff;
            MacroStep::Next
        } else {
            MacroStep::Stop
        }
    } else if op == 23 {
        c.dest_period = hi;
        if c.porta_rate == 0 {
            c.cur_period = hi;
        }
        MacroStep::Next
    } else if op == 11 {
        c.porta_reset = b1;
        c.porta_time = 1;
        if c.porta_rate == 0 {
            c.porta_per = c.dest_period;
        }
        c.porta_rate = hi_signed;
        MacroStep::Next
    } else if op == 12 {
        c.vib_reset = b1;
        c.vib_time = b1 >> 1u8;
        c.vib_width = b3 as i8;
        c.vib_flag = 1;
        if c.porta_rate == 0 {
            c.cur_period = c.dest_period;
            c.vib_offset = 0;
        }
        MacroStep::Next
    } else if op == 15 {
        c.env_time = b2;
        c.env_reset = c.env_time;
        c.env_end_vol = b3 as i8;
        c.env_rate = b1;
        MacroStep::Next
    } else if op == 10 {
        c.add_begin_time = 0;
        c.porta_rate = 0;
        c.vib_reset = 0;
        c.env_reset = 0;
        MacroStep::Next
    } else if op == 20 {
        if c.key_up == 0 {
            c.loop_ = 0;
        }
        if c.loop_ == 0 {
            c.loop_ = -1;
            return MacroStep::Next;
        }
        if c.loop_ == -1 {
            c.loop_ = b3 as i16 - 1;
        } else {
            c.loop_ = c.loop_.wrapping_sub(1);
        }
        c.macro_step = c.macro_step.wrapping_sub(1);
        MacroStep::Stop
    } else if op == 21 || op == 6 {
        if op == 21 {
            c.return_ptr = c.macro_ptr as u16;
            c.return_step = c.macro_step;
        }
        c.macro_num = entry as u16;
        c.macro_ptr = c.macro_num as u32;
        c.macro_step = hi;
        c.loop_ = -1;
        MacroStep::Next
    } else if op == 22 {
        c.macro_ptr = c.return_ptr as u32;
        c.macro_step = c.return_step;
        MacroStep::Next
    } else if op == 24 {
        c.save_addr = c.save_addr.wrapping_add(hi as u32 & 0xfffe);
        c.save_len = c.save_len.wrapping_sub(hi >> 1u16);
        c.curr_len = c.save_len;
        c.curr_addr = c.save_addr;
        MacroStep::Next
    } else if op == 25 {
        c.add_begin_time = 0;
        c.curr_addr = 0;
        c.save_addr = 0;
        c.curr_len = 1;
        c.save_len = 1;
        MacroStep::Next
    } else if op == 32 {
        let k = (b1 & 3) as usize;
        assert((b1 & 3) < 4u8) by (bit_vector);
        MacroStep::Cue(k, hi)
    } else if op == 34 {
        c.add_begin_time = 0;
        c.curr_addr = word.whole();
        MacroStep::Next
    } else {
        // an unknown instruction is skipped
        MacroStep::Next
    }
}


/// What the macro interpreter does to the channel blocks, the voices and the
/// cue registers when it runs channel `ci` for at most `fuel` instructions
/// over the program image `buf` (macro table at `ms`): fetch the instruction
/// at the channel's macro pointer and step, advance the step, carry out the
/// instruction, and go on until one suspends the channel; past the image's
/// end the macro stops.
#[verifier::opaque]
pub open spec fn macro_run(
    cdb: Seq<Cdb>,
    hdb: Seq<Hdb>,
    cue: Seq<u16>,
    buf: Seq<u32>,
    ci: int,
    ms: int,
    mm: bool,
    gemx: bool,
    dfh: bool,
    fuel: nat,
) -> (Seq<Cdb>, Seq<Hdb>, Seq<u16>)
    decreases fuel,
{
    if fuel == 0 {
        (cdb, hdb, cue)
    } else {
        let c = cdb[ci];
        let stepped = Cdb { macro_step: u16_specs::wrapping_add(c.macro_step, 1), ..c };
        match word_at(buf, u32_specs::wrapping_add(c.macro_ptr, c.macro_step as u32) as int, 0) {
            None => (cdb.update(ci, Cdb { macro_run: 0, ..stepped }), hdb, cue),
            Some(w) => {
                let word = with_byte_of(w, 0, 0);
                let hwi = c.hw_idx as int;
                let entry = table_entry(buf, ms, byte_of(word, 1) as int);
                let e = op_effect(stepped, hdb[hwi], word, byte_of(w, 0), ci as usize, gemx, dfh, entry);
                let cdb2 = cdb.update(ci, e.0);
                let hdb2 = hdb.update(hwi, e.1);
                match e.2 {
                    MacroStep::Stop => (cdb2, hdb2, cue),
                    MacroStep::Next => macro_run(cdb2, hdb2, cue, buf, ci, ms, mm, gemx, dfh, (fuel - 1) as nat),
                    MacroStep::Note(n) => {
                        let tg = note_target(n, mm);
                        let cdb3 = cdb2.update(tg, note_effect(cdb2[tg], n, dfh, table_entry(buf, ms, byte_of(n, 1) as int)));
                        macro_run(cdb3, hdb2, cue, buf, ci, ms, mm, gemx, dfh, (fuel - 1) as nat)
                    },
                    MacroStep::Cue(k, v) => macro_run(cdb2, hdb2, cue.update(k as int, v), buf, ci, ms, mm, gemx, dfh, (fuel - 1) as nat),
                }
            },
        }
    }
}

/// Runs channel `ci`'s macro program from where it stands until an
/// instruction suspends it, or the program runs off the image (which stops
/// the macro), or `MACRO_STEP_LIMIT` instructions have run.
pub fn run_macro(t: &mut TfmxCtx, ci: usize, macro_start: usize)
    requires
        old(t).wf(),
        ci < NUM_CDB,
    ensures
        final(t).wf(),
        final(t).same_program(old(t)),
        final(t).same_mapping(old(t)),
        final(t).mdb == old(t).mdb,
        final(t).pdblk == old(t).pdblk,
        final(t).multimode == old(t).multimode,
        final(t).loops == old(t).loops,
        final(t).jiffies == old(t).jiffies,
        final(t).e_clocks == old(t).e_clocks,
        (final(t).cdb@, final(t).hdb@, final(t).cue@) == macro_run(
            old(t).cdb@.update(ci as int, Cdb { macro_wait: 0, ..old(t).cdb@[ci as int] }),
            old(t).hdb@,
            old(t).cue@,
            old(t).editbuf@,
            ci as int,
            macro_start as int,
            old(t).multimode,
            old(t).gemx,
            old(t).danger_freak_hack,
            MACRO_STEP_LIMIT as nat,
        ),
{
    let mut c0 = t.cdb[ci];
    c0.macro_wait = 0;
    t.cdb.set(ci, c0);
    let mut fuel: u32 = MACRO_STEP_LIMIT;
    while fuel > 0
        invariant
            t.wf(),
            t.same_program(old(t)),
            t.same_mapping(old(t)),
            t.mdb == old(t).mdb,
            t.pdblk == old(t).pdblk,
            t.multimode == old(t).multimode,
            t.loops == old(t).loops,
            t.jiffies == old(t).jiffies,
            t.e_clocks == old(t).e_clocks,
            ci < NUM_CDB,
            macro_run(t.cdb@, t.hdb@, t.cue@, t.editbuf@, ci as int, macro_start as int, t.multimode, t.gemx,
                t.danger_freak_hack, fuel as nat) == macro_run(
                old(t).cdb@.update(ci as int, Cdb { macro_wait: 0, ..old(t).cdb@[ci as int] }),
                old(t).hdb@,
                old(t).cue@,
                old(t).editbuf@,
                ci as int,
                macro_start as int,
                old(t).multimode,
                old(t).gemx,
                old(t).danger_freak_hack,
                MACRO_STEP_LIMIT as nat,
            ),
        decreases fuel,
    {
        proof {
            reveal(macro_run);
        }
        fuel = fuel - 1;
        let mut c = t.cdb[ci];
        let step = c.macro_step;
        c.macro_step = c.macro_step.wrapping_add(1);
        let at = c.macro_ptr.wrapping_add(step as u32) as usize;
        let w = match fetch(&t.editbuf, at, 0) {
            Some(w) => w,
            None => {
                c.macro_run = 0;
                t.cdb.set(ci, c);
                return;
            },
        };
        let mut word = U32Be::from_ne(w);
        let op = word.byte(0);
        word.set_byte(0, 0);
        let entry = fetch_entry(&t.editbuf, macro_start, word.byte(1) as usize);
        let hwi = c.hw_idx;
        let mut hw = t.hdb[hwi];
        let r = macro_op(&mut c, &mut hw, word, op, ci, t.gemx, t.danger_freak_hack, entry);
        t.cdb.set(ci, c);
        t.hdb.set(hwi, hw);
        match r {
            MacroStep::Next => {},
            MacroStep::Stop => {
                return;
            },
            MacroStep::Note(n) => {
                note_port(t, n, macro_start);
            },
            MacroStep::Cue(k, v) => {
                t.cue.set(k, v);
            },
        }
    }
    proof {
        reveal(macro_run);
    }
}

} // verus!

verus! {

/// The clock of the emulated sound chip, in Hz.
pub const PAL_CLOCK: u64 = 3_579_545;

/// The position step per output sample of a voice that plays at hardware
/// period `period`, rendered at `rate` samples per second: 0 for period 0
/// (and for a rate so low that the divisor vanishes).
pub open spec fn voice_delta(period: u16, rate: u32) -> int {
    let d = (period as int * rate as int) / 32;
    if period == 0 || d == 0 { 0 } else { (PAL_CLOCK * 512) as int / d }
}

/// The volume that a voice plays at, from the channel's volume and the
/// master volume.
pub open spec fn voice_volume(cur_vol: i8, master_vol: i8) -> u8 {
    (((cur_vol as int * master_vol as int) as i32) >> 6i32) as u8
}

pub fn delta_for(period: u16, rate: u32) -> (r: u32)
    ensures
        r == voice_delta(period, rate),
{
    let (pp, rr) = (period as u64, rate as u64);
    assert(pp * rr <= 0xffff * 0xffff_ffff) by (nonlinear_arith)
        requires pp <= 0xffff, rr <= 0xffff_ffff;
    let prod: u64 = pp * rr;
    let d: u64 = prod >> 5u64;
    assert(d == prod / 32) by (bit_vector)
        requires d == prod >> 5u64;
    if period == 0 || d == 0 {
        0
    } else {
        let num: u64 = PAL_CLOCK * 512;
        let q: u64 = num / d;
        assert(q <= num) by (nonlinear_arith)
            requires d >= 1, q == num / d;
        q as u32
    }
}

/// The sample-start sweep: move the window start by the sweep step, and
/// turn the step around when its count runs out.
pub open spec fn sweep_effect(c: Cdb) -> Cdb {
    if c.add_begin_time != 0 {
        let ca = u32_specs::wrapping_add(c.curr_addr, c.add_begin as u32);
        let abt = (c.add_begin_time - 1) as u8;
        if abt == 0 {
            Cdb {
                curr_addr: ca,
                save_addr: ca,
                add_begin_time: c.add_begin_reset,
                add_begin: i32_specs::wrapping_sub(0, c.add_begin),
                ..c
            }
        } else {
            Cdb { curr_addr: ca, save_addr: ca, add_begin_time: abt, ..c }
        }
    } else {
        c
    }
}

/// Vibrato: the period swings around the target period by the vibrato
/// offset, whose step turns around every `vib_reset` ticks.
pub open spec fn vibrato_effect(c: Cdb) -> Cdb {
    if c.vib_reset != 0 {
        let vo = i16_specs::wrapping_add(c.vib_offset, c.vib_width as i16);
        let a = (((c.dest_period as int * (0x800 + vo as int)) as i64) >> 11u64) as i32;
        let vt = u8_specs::wrapping_sub(c.vib_time, 1);
        let c1 = Cdb { vib_offset: vo, cur_period: if c.porta_rate == 0 { a as u16 } else { c.cur_period }, ..c };
        if vt == 0 {
            Cdb { vib_time: c.vib_reset, vib_width: i8_specs::wrapping_sub(0, c.vib_width), ..c1 }
        } else {
            Cdb { vib_time: vt, ..c1 }
        }
    } else {
        c
    }
}

/// Portamento: every `porta_reset` ticks the period moves by the rate
/// towards the target, and stops there.
pub open spec fn porta_effect(c: Cdb) -> Cdb {
    let pt = u8_specs::wrapping_sub(c.porta_time, 1);
    if c.porta_rate != 0 && pt == 0 {
        let a: i32 = if c.porta_per < c.dest_period {
            (((c.porta_per as int * (256 + c.porta_rate as int)) as i64) >> 8u64) as i32
        } else if c.porta_per == c.dest_period {
            0
        } else {
            (((c.porta_per as int * (256 - c.porta_rate as int) - 128) as i64) >> 8u64) as i32
        };
        let done = if c.porta_per < c.dest_period {
            a >= c.dest_period as i32
        } else if c.porta_per == c.dest_period {
            true
        } else {
            a <= c.dest_period as i32
        };
        let a2: i32 = if done { c.dest_period as i32 } else { a };
        Cdb {
            porta_time: c.porta_reset,
            porta_rate: if done { 0 } else { c.porta_rate },
            cur_period: a2 as u16,
            porta_per: a2 as u16,
            ..c
        }
    } else {
        Cdb { porta_time: pt, ..c }
    }
}

/// Envelope: every `env_reset` ticks the volume moves by the rate towards
/// the end volume; once there (or past it) the envelope stops at the end
/// volume.
pub open spec fn envelope_effect(c: Cdb) -> Cdb {
    let et = u8_specs::wrapping_sub(c.env_time, 1);
    if c.env_reset != 0 && c.env_time == 0 {
        let up = i8_specs::wrapping_add(c.cur_vol, c.env_rate as i8);
        let down = i8_specs::wrapping_sub(c.cur_vol, c.env_rate as i8);
        let (cv, stop) = if c.cur_vol < c.env_end_vol {
            (up, c.env_end_vol < up)
        } else if c.cur_vol > c.env_end_vol {
            if c.cur_vol < c.env_rate as i8 {
                (c.cur_vol, true)
            } else {
                (down, c.env_end_vol > down)
            }
        } else {
            (c.cur_vol, false)
        };
        if stop {
            Cdb { env_reset: 0, env_time: 0, cur_vol: c.env_end_vol, ..c }
        } else {
            Cdb { env_time: c.env_reset, cur_vol: cv, ..c }
        }
    } else {
        Cdb { env_time: et, ..c }
    }
}

/// Master-volume fade: every `fade_reset` ticks the master volume moves by
/// the slope, and the fade stops at its target.
pub open spec fn fade_effect(m: Mdb) -> Mdb {
    let ft = i8_specs::wrapping_sub(m.fade_time, 1);
    if m.fade_slope != 0 && ft == 0 {
        let mv = i8_specs::wrapping_add(m.master_vol, m.fade_slope);
        Mdb { fade_time: m.fade_reset, master_vol: mv, fade_slope: if m.fade_dest == mv { 0 } else { m.fade_slope }, ..m }
    } else {
        Mdb { fade_time: ft, ..m }
    }
}

/// The per-tick effects of one channel and of the master volume.
pub open spec fn effects(c: Cdb, m: Mdb) -> (Cdb, Mdb) {
    if c.efx_run < 0 {
        (c, m)
    } else if c.efx_run == 0 {
        (Cdb { efx_run: 1, ..c }, m)
    } else {
        (envelope_effect(porta_effect(vibrato_effect(sweep_effect(c)))), fade_effect(m))
    }
}

fn sweep(c: &mut Cdb)
    ensures
        *final(c) == sweep_effect(*old(c)),
{
    if c.add_begin_time != 0 {
        c.curr_addr = c.curr_addr.wrapping_add(c.add_begin as u32);
        c.save_addr = c.curr_addr;
        c.add_begin_time = c.add_begin_time - 1;
        if c.add_begin_time == 0 {
            c.add_begin = 0i32.wrapping_sub(c.add_begin);
            c.add_begin_time = c.add_begin_reset;
        }
    }
}

fn vibrato(c: &mut Cdb)
    ensures
        *final(c) == vibrato_effect(*old(c)),
{
    if c.vib_reset != 0 {
        c.vib_offset = c.vib_offset.wrapping_add(c.vib_width as i16);
        let p = c.dest_period as i64;
        let q = 0x800 + c.vib_offset as i64;
        assert(-0x1_0000_0000 <= p * q <= 0x1_0000_0000) by (nonlinear_arith)
            requires 0 <= p <= 0xffff, -0x8000 <= q <= 0x9000;
        let a = ((p * q) >> 11u64) as i32;
        if c.porta_rate == 0 {
            c.cur_period = a as u16;
        }
        c.vib_time = c.vib_time.wrapping_sub(1);
        if c.vib_time == 0 {
            c.vib_time = c.vib_reset;
            c.vib_width = 0i8.wrapping_sub(c.vib_width);
        }
    }
}

fn portamento(c: &mut Cdb)
    ensures
        *final(c) == porta_effect(*old(c)),
{
    c.porta_time = c.porta_time.wrapping_sub(1);
    if c.porta_rate != 0 && c.porta_time == 0 {
        c.porta_time = c.porta_reset;
        let mut a: i32 = 0;
        if c.porta_per < c.dest_period {
            let p = c.porta_per as i64;
            let q = 256 + c.porta_rate as i64;
            assert(-0x1_0000_0000 <= p * q <= 0x1_0000_0000) by (nonlinear_arith)
                requires 0 <= p <= 0xffff, -0x8000 <= q <= 0x9000;
            a = ((p * q) >> 8u64) as i32;
            if a >= c.dest_period as i32 {
                c.porta_rate = 0;
            }
        } else if c.porta_per == c.dest_period {
            c.porta_rate = 0;
        } else {
            let p = c.porta_per as i64;
            let q = 256 - c.porta_rate as i64;
            assert(-0x1_0000_0000 <= p * q <= 0x1_0000_0000) by (nonlinear_arith)
                requires 0 <= p <= 0xffff, -0x8000 <= q <= 0x9000;
            a = ((p * q - 128) >> 8u64) as i32;
            if a <= c.dest_period as i32 {
                c.porta_rate = 0;
            }
        }
        if c.porta_rate == 0 {
            a = c.dest_period as i32;
        }
        c.cur_period = a as u16;
        c.porta_per = a as u16;
    }
}

fn envelope(c: &mut Cdb)
    ensures
        *final(c) == envelope_effect(*old(c)),
{
    let env_time = c.env_time;
    c.env_time = c.env_time.wrapping_sub(1);
    if c.env_reset != 0 && env_time == 0 {
        c.env_time = c.env_reset;
        if c.cur_vol < c.env_end_vol {
            c.cur_vol = c.cur_vol.wrapping_add(c.env_rate as i8);
            if c.env_end_vol < c.cur_vol {
                c.env_reset = 0;
            }
        } else if c.cur_vol > c.env_end_vol {
            if c.cur_vol < c.env_rate as i8 {
                c.env_reset = 0;
            } else {
                c.cur_vol = c.cur_vol.wrapping_sub(c.env_rate as i8);
            }
            if c.env_end_vol > c.cur_vol {
                c.env_reset = 0;
            }
        }
        if c.env_reset == 0 {
            c.env_time = 0;
            c.cur_vol = c.env_end_vol;
        }
    }
}

fn fade_step(mdb: &mut Mdb)
    ensures
        *final(mdb) == fade_effect(*old(mdb)),
{
    mdb.fade_time = mdb.fade_time.wrapping_sub(1);
    if mdb.fade_slope != 0 && mdb.fade_time == 0 {
        mdb.fade_time = mdb.fade_reset;
        mdb.master_vol = mdb.master_vol.wrapping_add(mdb.fade_slope);
        if mdb.fade_dest == mdb.master_vol {
            mdb.fade_slope = 0;
        }
    }
}

/// The per-tick effects of one channel: sample-start sweep, vibrato,
/// portamento, envelope, and the master-volume fade. A channel whose effects
/// are off (`efx_run < 0`) is left alone; one whose effects were just
/// armed (`efx_run == 0`) starts them on the next tick.
pub fn do_effects(c: &mut Cdb, mdb: &mut Mdb)
    ensures
        (*final(c), *final(mdb)) == effects(*old(c), *old(mdb)),
        final(c).hw_idx == old(c).hw_idx,
        final(mdb).player_enable == old(mdb).player_enable,
        final(mdb).speed_cnt == old(mdb).speed_cnt,
        final(mdb).track_loop == old(mdb).track_loop,
        final(mdb).curr_song == old(mdb).curr_song,
{
    if c.efx_run < 0 {
        return;
    }
    if c.efx_run == 0 {
        c.efx_run = 1;
        return;
    }
    sweep(c);
    vibrato(c);
    portamento(c);
    envelope(c);
    fade_step(mdb);
}

/// The channel, voice, cue and global blocks that one tick of a channel
/// changes.
pub struct MacroModel {
    pub cdb: Seq<Cdb>,
    pub hdb: Seq<Hdb>,
    pub cue: Seq<u16>,
    pub mdb: Mdb,
}

impl TfmxCtx {
    pub open spec fn macro_model(&self) -> MacroModel {
        MacroModel { cdb: self.cdb@, hdb: self.hdb@, cue: self.cue@, mdb: self.mdb }
    }
}

/// The first part of a channel's tick: the sound-effect lock counts down
/// (or the lock is lifted), a pending sound-effect note is dispatched, and
/// the macro runs when it is running and its wait is over (the wait counts
/// down otherwise).
pub open spec fn channel_run(s: MacroModel, buf: Seq<u32>, ci: int, ms: int, mm: bool, gemx: bool, dfh: bool) -> (Seq<Cdb>, Seq<Hdb>, Seq<u16>) {
    let c = s.cdb[ci];
    let c1 = if c.sfx_lock_time >= 0 {
        Cdb { sfx_lock_time: (c.sfx_lock_time - 1) as i16, ..c }
    } else {
        Cdb { sfx_flag: 0, sfx_priority: 0, ..c }
    };
    let cdb1 = if c1.sfx_code != 0 {
        let cdbx = s.cdb.update(ci, Cdb { sfx_flag: 0, sfx_code: 0, ..c1 });
        let tg = note_target(c1.sfx_code, mm);
        let cdby = cdbx.update(tg, note_effect(cdbx[tg], c1.sfx_code, dfh, table_entry(buf, ms, byte_of(c1.sfx_code, 1) as int)));
        cdby.update(ci, Cdb { sfx_flag: cdby[ci].sfx_priority, ..cdby[ci] })
    } else {
        s.cdb.update(ci, c1)
    };
    let c2 = cdb1[ci];
    let cdb2 = cdb1.update(ci, Cdb { macro_wait: u16_specs::wrapping_sub(c2.macro_wait, 1), ..c2 });
    if c2.macro_run != 0 && c2.macro_wait == 0 {
        macro_run(cdb2.update(ci, Cdb { macro_wait: 0, ..cdb2[ci] }), s.hdb, s.cue, buf, ci, ms, mm, gemx, dfh, MACRO_STEP_LIMIT as nat)
    } else {
        (cdb2, s.hdb, s.cue)
    }
}

/// The rest of a channel's tick: the effects run, and the channel's voice
/// takes the period (as a step), the sample window and the volume scaled by
/// the master volume.
pub open spec fn channel_finish(r: (Seq<Cdb>, Seq<Hdb>, Seq<u16>), mdb: Mdb, ci: int, rate: u32) -> MacroModel {
    let e = effects(r.0[ci], mdb);
    let c4 = e.0;
    let hwi = c4.hw_idx as int;
    let hw = r.1[hwi];
    let sl: u16 = if c4.save_len != 0 { c4.save_len << 1u16 } else { 0 };
    let sa = c4.save_addr as usize;
    let hw2 = Hdb {
        delta: voice_delta(c4.cur_period, rate) as u32,
        sample_start: sa,
        sample_len: sl,
        sbeg: if hw.mode & 3 == 1 { sa } else { hw.sbeg },
        slen: if hw.mode & 3 == 1 { sl } else { hw.slen },
        vol: voice_volume(c4.cur_vol, e.1.master_vol),
        ..hw
    };
    MacroModel { cdb: r.0.update(ci, c4), hdb: r.1.update(hwi, hw2), cue: r.2, mdb: e.1 }
}

/// One tick of channel `ci`.
#[verifier::opaque]
pub open spec fn channel_tick(s: MacroModel, buf: Seq<u32>, ci: int, ms: int, mm: bool, gemx: bool, dfh: bool, rate: u32) -> MacroModel {
    channel_finish(channel_run(s, buf, ci, ms, mm, gemx, dfh), s.mdb, ci, rate)
}

/// One tick of the macro interpreter over all channels: 0, 1 and 2, then
/// 4 to 7 in multimode, then 3.
pub open spec fn all_channels_tick(s: MacroModel, buf: Seq<u32>, ms: int, mm: bool, gemx: bool, dfh: bool, rate: u32) -> MacroModel {
    let s2 = channel_tick(channel_tick(channel_tick(s, buf, 0, ms, mm, gemx, dfh, rate), buf, 1, ms, mm, gemx, dfh, rate),
        buf, 2, ms, mm, gemx, dfh, rate);
    let s3 = if mm {
        channel_tick(channel_tick(channel_tick(channel_tick(s2, buf, 4, ms, mm, gemx, dfh, rate), buf, 5, ms, mm, gemx, dfh, rate),
            buf, 6, ms, mm, gemx, dfh, rate), buf, 7, ms, mm, gemx, dfh, rate)
    } else {
        s2
    };
    channel_tick(s3, buf, 3, ms, mm, gemx, dfh, rate)
}

/// The first part of channel `ci`'s tick (see `channel_run`).
#[verifier::rlimit(60)]
fn run_channel(t: &mut TfmxCtx, ci: usize, macro_start: usize)
    requires
        old(t).wf(),
        ci < MAX_CHANNELS,
    ensures
        final(t).wf(),
        final(t).same_program(old(t)),
        final(t).same_mapping(old(t)),
        final(t).pdblk == old(t).pdblk,
        final(t).mdb == old(t).mdb,
        final(t).multimode == old(t).multimode,
        final(t).loops == old(t).loops,
        final(t).jiffies == old(t).jiffies,
        final(t).e_clocks == old(t).e_clocks,
        (final(t).cdb@, final(t).hdb@, final(t).cue@) == channel_run(old(t).macro_model(), old(t).editbuf@, ci as int,
            macro_start as int, old(t).multimode, old(t).gemx, old(t).danger_freak_hack),
{
    let mut c = t.cdb[ci];
    if c.sfx_lock_time >= 0 {
        c.sfx_lock_time = c.sfx_lock_time - 1;
    } else {
        c.sfx_flag = 0;
        c.sfx_priority = 0;
    }
    let sfx_code = c.sfx_code;
    if sfx_code != 0 {
        c.sfx_flag = 0;
        c.sfx_code = 0;
        t.cdb.set(ci, c);
        note_port(t, sfx_code, macro_start);
        c = t.cdb[ci];
        c.sfx_flag = c.sfx_priority;
    }
    let ghost cdb1 = t.cdb@.update(ci as int, c);
    let n_run = c.macro_run;
    let n_wait = c.macro_wait;
    c.macro_wait = c.macro_wait.wrapping_sub(1);
    t.cdb.set(ci, c);
    assert(t.cdb@ =~= cdb1.update(ci as int, c));
    if n_run != 0 && n_wait == 0 {
        run_macro(t, ci, macro_start);
    }
}

/// One tick of channel `ci`: the sound-effect lock countdown, the macro
/// (when it runs and its wait is over), the effects, and then the channel's
/// voice takes the channel's period, sample window and volume.
#[verifier::rlimit(60)]
pub fn do_macro(t: &mut TfmxCtx, ci: usize, macro_start: usize)
    requires
        old(t).wf(),
        ci < MAX_CHANNELS,
    ensures
        final(t).wf(),
        final(t).same_program(old(t)),
        final(t).same_mapping(old(t)),
        final(t).pdblk == old(t).pdblk,
        final(t).multimode == old(t).multimode,
        final(t).loops == old(t).loops,
        final(t).jiffies == old(t).jiffies,
        final(t).e_clocks == old(t).e_clocks,
        final(t).mdb.player_enable == old(t).mdb.player_enable,
        final(t).mdb.speed_cnt == old(t).mdb.speed_cnt,
        final(t).mdb.track_loop == old(t).mdb.track_loop,
        final(t).mdb.curr_song == old(t).mdb.curr_song,
        ({
            let c = final(t).cdb@[ci as int];
            let hw = final(t).hdb@[c.hw_idx as int];
            &&& hw.delta == voice_delta(c.cur_period, old(t).out_rate)
            &&& hw.vol == voice_volume(c.cur_vol, final(t).mdb.master_vol)
            &&& hw.sample_start == c.save_addr as usize
            &&& hw.sample_len == if c.save_len != 0 { c.save_len << 1u16 } else { 0 }
        }),
        final(t).macro_model() == channel_tick(old(t).macro_model(), old(t).editbuf@, ci as int, macro_start as int,
            old(t).multimode, old(t).gemx, old(t).danger_freak_hack, old(t).out_rate),
{
    proof {
        reveal(channel_tick);
    }
    run_channel(t, ci, macro_start);
    let mut c = t.cdb[ci];
    do_effects(&mut c, &mut t.mdb);
    t.cdb.set(ci, c);
    let hwi = c.hw_idx;
    let mut hw = t.hdb[hwi];
    hw.delta = delta_for(c.cur_period, t.out_rate);
    hw.sample_start = c.save_addr as usize;
    hw.sample_len = if c.save_len != 0 { c.save_len << 1u16 } else { 0 };
    if hw.mode & 3 == 1 {
        hw.sbeg = hw.sample_start;
        hw.slen = hw.sample_len;
    }
    let v = c.cur_vol as i32;
    let m = t.mdb.master_vol as i32;
    assert(-0x4000 <= v * m <= 0x4000) by (nonlinear_arith)
        requires -128 <= v <= 127, -128 <= m <= 127;
    hw.vol = ((v * m) >> 6i32) as u8;
    t.hdb.set(hwi, hw);
}

/// One tick of the macro interpreter: channels 0 to 2, then 4 to 7 in
/// multimode, then channel 3 (which always runs, so that fades keep time).
pub fn do_all_macros(t: &mut TfmxCtx, macro_start: usize)
    requires
        old(t).wf(),
    ensures
        final(t).wf(),
        final(t).same_program(old(t)),
        final(t).same_mapping(old(t)),
        final(t).pdblk == old(t).pdblk,
        final(t).multimode == old(t).multimode,
        final(t).loops == old(t).loops,
        final(t).jiffies == old(t).jiffies,
        final(t).e_clocks == old(t).e_clocks,
        final(t).mdb.player_enable == old(t).mdb.player_enable,
        final(t).mdb.speed_cnt == old(t).mdb.speed_cnt,
        final(t).mdb.track_loop == old(t).mdb.track_loop,
        final(t).mdb.curr_song == old(t).mdb.curr_song,
        final(t).macro_model() == all_channels_tick(old(t).macro_model(), old(t).editbuf@, macro_start as int,
            old(t).multimode, old(t).gemx, old(t).danger_freak_hack, old(t).out_rate),
{
    do_macro(t, 0, macro_start);
    do_macro(t, 1, macro_start);
    do_macro(t, 2, macro_start);
    if t.multimode {
        do_macro(t, 4, macro_start);
        do_macro(t, 5, macro_start);
        do_macro(t, 6, macro_start);
        do_macro(t, 7, macro_start);
    }
    do_macro(t, 3, macro_start);
}

} // verus!
