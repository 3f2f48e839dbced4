use tfmxr::ctx::TfmxCtx;
use tfmxr::macros::{channel_off, delta_for, do_effects, do_fade, note_port, loop_on, run_loop_fn};
use tfmxr::notes::noteval;
use tfmxr::state::{Cdb, Hdb, LoopBehavior, Mdb, NUM_CDB};
use tfmxr::tracks::init;

#[test]
fn period_table_lookup() {
    assert_eq!(noteval(0), 0x6ae);
    assert_eq!(noteval(30), 0x12f);
    assert_eq!(noteval(63), 0x0b4);
}

#[test]
fn delta_formula_exact() {
    assert_eq!(delta_for(0x12f, 44100), (3_579_545u32 << 9) / ((0x12f * 44100) >> 5));
    assert_eq!(delta_for(0x12f, 44100), 4389);
    assert_eq!(delta_for(0, 44100), 0);
    assert_eq!(delta_for(1, 1), 0);
}

#[test]
fn note_starts_macro_on_addressed_channel() {
    let mut t = TfmxCtx::new(44100);
    t.editbuf[0x100 + 5] = 777;
    note_port(&mut t, 0x1e05_f2_07, 0x100);
    let c = t.cdb[2];
    assert_eq!(c.curr_note, 0x1e);
    assert_eq!(c.macro_num, 5);
    assert_eq!(c.macro_ptr, 777);
    assert_eq!(c.velocity, 0xf);
    assert_eq!(c.fine_tune, 7);
    assert_eq!(c.macro_run, -1);
    assert_eq!(c.loop_, -1);
    assert_eq!(t.cdb[0].macro_run, 0);
}

#[test]
fn note_lock_blocks_later_notes() {
    let mut t = TfmxCtx::new(44100);
    note_port(&mut t, 0xfc01_0003, 0x100);
    assert_eq!(t.cdb[0].sfx_flag, 1);
    assert_eq!(t.cdb[0].sfx_lock_time, 3);
    note_port(&mut t, 0x1e05_0000, 0x100);
    assert_eq!(t.cdb[0].curr_note, 0);
}

#[test]
fn note_portamento_and_envelope() {
    let mut t = TfmxCtx::new(44100);
    note_port(&mut t, 0xc5_04_01_10, 0x100);
    let c = t.cdb[1];
    assert_eq!(c.curr_note, 5);
    assert_eq!(c.dest_period, noteval(5));
    assert_eq!(c.porta_rate, 0x10);
    assert_eq!(c.porta_reset, 4);
    note_port(&mut t, 0xf7_02_31_20, 0x100);
    let c = t.cdb[1];
    assert_eq!(c.env_rate, 2);
    assert_eq!(c.env_reset, 4);
    assert_eq!(c.env_end_vol, 0x20);
}

#[test]
fn multimode_addresses_eight_channels() {
    let mut t = TfmxCtx::new(44100);
    t.multimode = true;
    t.cdb[6].key_up = 1;
    note_port(&mut t, 0xf5_00_06_00, 0x100);
    assert_eq!(t.cdb[6].key_up, 0);
    let mut u = TfmxCtx::new(44100);
    u.cdb[2].key_up = 1;
    note_port(&mut u, 0xf5_00_06_00, 0x100);
    assert_eq!(u.cdb[2].key_up, 0);
}

#[test]
fn fade_jumps_or_slopes() {
    let mut m = Mdb::default();
    m.master_vol = 0x40;
    do_fade(0, 0x10, &mut m);
    assert_eq!(m.master_vol, 0x10);
    assert_eq!(m.fade_slope, 0);
    do_fade(2, 0x30, &mut m);
    assert_eq!(m.master_vol, 0x10);
    assert_eq!(m.fade_slope, 1);
    assert_eq!(m.fade_time, 2);
    do_fade(2, 0x00, &mut m);
    assert_eq!(m.fade_slope, -1);
}

#[test]
fn effects_envelope_steps_to_target() {
    let mut c = Cdb::default();
    let mut m = Mdb::default();
    c.efx_run = 1;
    c.env_reset = 1;
    c.env_time = 0;
    c.env_rate = 0x10;
    c.env_end_vol = 0x20;
    c.cur_vol = 0;
    do_effects(&mut c, &mut m);
    assert_eq!(c.cur_vol, 0x10);
    assert_eq!(c.env_time, 1);
    do_effects(&mut c, &mut m);
    assert_eq!(c.cur_vol, 0x10);
    do_effects(&mut c, &mut m);
    assert_eq!(c.cur_vol, 0x20);
    do_effects(&mut c, &mut m);
    do_effects(&mut c, &mut m);
    assert_eq!(c.cur_vol, 0x20);
}

#[test]
fn effects_armed_waits_one_tick() {
    let mut c = Cdb::default();
    let mut m = Mdb::default();
    c.vib_reset = 2;
    c.vib_width = 5;
    do_effects(&mut c, &mut m);
    assert_eq!(c.efx_run, 1);
    assert_eq!(c.vib_offset, 0);
    do_effects(&mut c, &mut m);
    assert_eq!(c.vib_offset, 5);
}

#[test]
fn channel_off_silences_voice() {
    let mut t = TfmxCtx::new(44100);
    init(&mut t);
    t.cdb[1].cur_vol = 0x30;
    t.hdb[1].mode = 3;
    t.hdb[1].vol = 0x30;
    channel_off(&mut t, 1);
    assert_eq!(t.cdb[1].cur_vol, 0);
    assert_eq!(t.hdb[1].mode, 0);
    assert_eq!(t.hdb[1].vol, 0);
    assert_eq!(t.hdb[1].cdb_idx, Some(1));
}

#[test]
fn init_binds_channels_to_voices() {
    let mut t = TfmxCtx::new(44100);
    init(&mut t);
    for i in 0..8 {
        assert_eq!(t.cdb[i].hw_idx, i);
        assert_eq!(t.hdb[i].cdb_idx, Some(i));
        assert_eq!(t.pdblk.p[i].num, 0xff);
    }
    assert!(!t.mdb.player_enable);
}

#[test]
fn loop_on_counts_down_dma_wait() {
    let mut cdb = vec![Cdb::default(); NUM_CDB];
    let mut hw = Hdb::default();
    hw.loop_fn = LoopBehavior::PendingDmaWait;
    hw.cdb_idx = Some(3);
    cdb[3].wait_dma_count = 1;
    assert_eq!(run_loop_fn(&mut hw, &mut cdb), 1);
    assert_eq!(cdb[3].wait_dma_count, 0);
    assert_eq!(hw.loop_fn, LoopBehavior::PendingDmaWait);
    assert_eq!(loop_on(&mut hw, &mut cdb), 1);
    assert_eq!(hw.loop_fn, LoopBehavior::Off);
    assert_eq!(cdb[3].macro_run, -1);
}
