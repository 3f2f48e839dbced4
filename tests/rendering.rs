use tfmxr::rendering::{
    available_sound_data, conv_s16, mix, present_output, stereo_blend, tick_samples, AudioCtx, BUFSIZE,
    CLOCKS_PER_SAMPLE, HALFBUFSIZE,
};
use tfmxr::state::{Cdb, Hdb, NUM_CDB};

fn looping_voice(delta: u32) -> Hdb {
    let mut hw = Hdb::default();
    hw.mode = 1;
    hw.slen = 4;
    hw.sample_len = 4;
    hw.sample_start = 0;
    hw.sbeg = 0;
    hw.delta = delta;
    hw.vol = 0x40;
    hw
}

#[test]
fn ring_starts_empty() {
    let a = AudioCtx::new();
    assert_eq!(available_sound_data(&a), 0);
    assert!(a.is_blend_on());
}

#[test]
fn ring_available_wraps() {
    let mut a = AudioCtx::new();
    a.bhead = 10;
    a.btail = 16000;
    assert_eq!(available_sound_data(&a), 10 + BUFSIZE - 16000);
    a.bhead = 16000;
    a.btail = 10;
    assert_eq!(available_sound_data(&a), 15990);
}

#[test]
fn ring_produce_then_consume() {
    let mut a = AudioCtx::new();
    a.blend = false;
    a.bhead = BUFSIZE - 2;
    a.btail = BUFSIZE - 2;
    a.tbuf[0] = 100;
    a.tbuf[HALFBUFSIZE] = 200;
    a.tbuf[1] = -3;
    a.tbuf[HALFBUFSIZE + 1] = 7;
    a.samples_done = 2;
    conv_s16(&mut a);
    assert_eq!(available_sound_data(&a), 4);
    assert_eq!(a.bhead, 2);
    assert_eq!(a.tbuf[0], 0);
    assert_eq!(a.tbuf[HALFBUFSIZE + 1], 0);
    let out = present_output(&mut a);
    assert_eq!(available_sound_data(&a), 0);
    let samples: Vec<i16> = out.chunks(2).map(|c| i16::from_le_bytes([c[0], c[1]])).collect();
    assert_eq!(samples, vec![200, 100, 7, -3]);
}

#[test]
fn ring_many_cycles_stay_bounded() {
    let mut a = AudioCtx::new();
    for round in 0..20 {
        a.samples_done = 2048;
        for i in 0..2048 {
            a.tbuf[i] = round * 10 + i as i32;
        }
        conv_s16(&mut a);
        let n = available_sound_data(&a);
        assert!(n < BUFSIZE);
        assert_eq!(n, 4096);
        a.samples_done = 0;
        let out = present_output(&mut a);
        assert_eq!(out.len(), 8192);
        assert_eq!(available_sound_data(&a), 0);
    }
}

#[test]
fn blend_formula() {
    let mut a = AudioCtx::new();
    a.tbuf[0] = 160;
    a.tbuf[HALFBUFSIZE] = 0;
    a.tbuf[1] = -16;
    a.tbuf[HALFBUFSIZE + 1] = 32;
    a.samples_done = 2;
    stereo_blend(&mut a);
    assert_eq!(a.tbuf[0], (0 * 5 + 160 * 11) >> 4);
    assert_eq!(a.tbuf[HALFBUFSIZE], (0 * 11 + 160 * 5) >> 4);
    assert_eq!(a.tbuf[1], (32 * 5 + -16 * 11) >> 4);
    assert_eq!(a.tbuf[HALFBUFSIZE + 1], (32 * 11 + -16 * 5) >> 4);
}

#[test]
fn blend_on_off_differ_only_by_formula() {
    let fill = |a: &mut AudioCtx| {
        for i in 0..2048usize {
            a.tbuf[i] = (i as i32 * 37) % 5000 - 2500;
            a.tbuf[HALFBUFSIZE + i] = (i as i32 * 91) % 3000 - 1500;
        }
        a.samples_done = 2048;
    };
    let mut on = AudioCtx::new();
    let mut off = AudioCtx::new();
    off.toggle_blend();
    fill(&mut on);
    fill(&mut off);
    conv_s16(&mut on);
    conv_s16(&mut off);
    for i in 0..2048usize {
        let l = (i as i32 * 37) % 5000 - 2500;
        let r = (i as i32 * 91) % 3000 - 1500;
        assert_eq!(off.buf[2 * i], r as i16);
        assert_eq!(off.buf[2 * i + 1], l as i16);
        assert_eq!(on.buf[2 * i], ((r * 11 + l * 5) >> 4) as i16);
        assert_eq!(on.buf[2 * i + 1], ((r * 5 + l * 11) >> 4) as i16);
    }
}

#[test]
fn mix_interpolates() {
    let smpl: Vec<i8> = vec![0, 64, 0, -64];
    let mut cdb = vec![Cdb::default(); NUM_CDB];
    let mut tbuf = vec![0i32; BUFSIZE];
    let mut hw = looping_voice(20000);
    mix(&mut hw, 2, &mut tbuf, 0, &smpl, &mut cdb);
    assert_eq!(tbuf[0], 0);
    // position 20000: sample 1, fraction 3616, between 64 and 0
    assert_eq!(tbuf[1], 64 * (64 + ((-64 * 3616) >> 14)));
    assert_eq!(tbuf[1], 64 * 49);
    assert_eq!(hw.pos, 40000);
    assert_eq!(hw.mode, 3);
}

#[test]
fn mix_position_stays_in_window() {
    let smpl: Vec<i8> = vec![0, 64, 0, -64, 5, 5, 5, 5];
    let mut cdb = vec![Cdb::default(); NUM_CDB];
    let mut tbuf = vec![0i32; BUFSIZE];
    for delta in [1u32, 4388, 16384, 50000, 65535, 200_000] {
        let mut hw = looping_voice(delta);
        for _ in 0..50 {
            mix(&mut hw, 37, &mut tbuf, 100, &smpl, &mut cdb);
            assert!(hw.pos < (u32::from(hw.slen) << 14) || (hw.pos == 0 && hw.slen == 0));
        }
    }
}

#[test]
fn mix_silences_short_loop() {
    let smpl: Vec<i8> = vec![10, 20, 30, 40];
    let mut cdb = vec![Cdb::default(); NUM_CDB];
    let mut tbuf = vec![0i32; BUFSIZE];
    let mut hw = looping_voice(16384 * 3);
    hw.mode = 3;
    hw.sample_len = 2;
    mix(&mut hw, 10, &mut tbuf, 0, &smpl, &mut cdb);
    assert_eq!(hw.slen, 0);
    assert_eq!(hw.delta, 0);
    assert_eq!(hw.pos, 0);
    assert_eq!(tbuf[0], 64 * 10);
    assert_eq!(tbuf[1], 64 * 40);
    assert_eq!(tbuf[2], 0);
}

#[test]
fn mix_clamps_bad_window() {
    let smpl: Vec<i8> = vec![1, 2];
    let mut cdb = vec![Cdb::default(); NUM_CDB];
    let mut tbuf = vec![0i32; BUFSIZE];
    let mut hw = looping_voice(16384);
    hw.sample_start = 1000;
    hw.sbeg = 500;
    hw.mode = 3;
    mix(&mut hw, 4, &mut tbuf, 0, &smpl, &mut cdb);
    assert_eq!(hw.sample_start, 0);
}

#[test]
fn tick_remainder_is_carried() {
    let clocks = 14318u64 * 22050;
    let (n1, r1) = tick_samples(0, clocks);
    assert_eq!((n1, r1), (881, 353545));
    let (n2, r2) = tick_samples(r1, clocks);
    assert_eq!((n2, r2), (882, 349135));
    assert_eq!((n1 + n2) * CLOCKS_PER_SAMPLE + r2, 2 * clocks);
}

#[test]
fn sample_reads_clamp_to_last_sample() {
    let smpl: Vec<i8> = vec![3, 9];
    let mut cdb = vec![Cdb::default(); NUM_CDB];
    let mut tbuf = vec![0i32; BUFSIZE];
    let mut hw = looping_voice(0);
    hw.mode = 3;
    hw.sbeg = 1;
    mix(&mut hw, 1, &mut tbuf, 0, &smpl, &mut cdb);
    assert_eq!(tbuf[0], 64 * 9);
}
