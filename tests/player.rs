use tfmxr::{next_song, PlayerBuilder, PlayerCmd, TfmxPlayer};

const MACRO_AT: u32 = 410;
const PATTERN_AT: u32 = 400;

/// A song file: subsong 0 plays pattern 0 on channel 0, which triggers
/// macro 0 once: a four-sample loop at note 30, volume 0x40.
fn synthetic_mdat() -> Vec<u8> {
    let mut words = vec![0u32; 420];
    words[0x80] = 0x200 + 4 * PATTERN_AT;
    words[0x81] = 0x201;
    words[0x100] = 0x200 + 4 * MACRO_AT;
    words[0x101] = 0x201;
    words[0x180] = 0x0000_ff00;
    words[0x181] = 0xff00_ff00;
    words[0x182] = 0xff00_ff00;
    words[0x183] = 0xff00_ff00;
    words[PATTERN_AT as usize] = 0x9e00_f0ff;
    words[PATTERN_AT as usize + 1] = 0xf400_0000;
    let m = MACRO_AT as usize;
    words[m] = 0x0200_0000;
    words[m + 1] = 0x0300_0002;
    words[m + 2] = 0x0800_0000;
    words[m + 3] = 0x0100_0000;
    words[m + 4] = 0x0e00_0040;
    words[m + 5] = 0x0700_0000;
    let mut b = vec![0u8; 512];
    b[..10].copy_from_slice(b"TFMX-SONG ");
    for w in words {
        b.extend_from_slice(&w.to_be_bytes());
    }
    b
}

fn samples() -> Vec<u8> {
    vec![0u8, 64, 0, (-64i8) as u8]
}

fn player() -> TfmxPlayer {
    PlayerBuilder::new("song.mdat").build_from(&synthetic_mdat(), &samples()).unwrap()
}

fn pcm(bytes: &[u8]) -> Vec<i16> {
    bytes.chunks(2).map(|c| i16::from_le_bytes([c[0], c[1]])).collect()
}

/// The expected output, computed by hand: silence for the two ticks before
/// the voice starts (881 and 882 samples), then the loop interpolated at
/// step 4389, on the left voice only, blended.
fn expected(frames: usize) -> Vec<i16> {
    let smpl = [0i32, 64, 0, -64];
    let delta = 4389u32;
    let len = 4u32 << 14;
    let mut pos = 0u32;
    let mut out = Vec::new();
    for j in 0..frames {
        let left = if j < 881 + 882 {
            0
        } else {
            let real = (pos >> 14) as usize;
            let v1 = smpl[real];
            let v2 = if real + 1 < 4 { smpl[real + 1] } else { smpl[0] };
            let base = v1 + (((v2 - v1) * (pos & 0x3fff) as i32) >> 14);
            pos += delta;
            if pos >= len {
                pos -= len;
            }
            64 * base
        };
        out.push(((left * 5) >> 4) as i16);
        out.push(((left * 11) >> 4) as i16);
    }
    out
}

#[test]
fn builder_defaults_and_setters() {
    let mut b = PlayerBuilder::new("dir/mdat.tune");
    assert_eq!(b.sample_rate, 44100);
    assert_eq!(b.song_index, 0);
    assert_eq!(b.sample_path(), "dir/smpl.tune");
    b.smpl_file("other.smpl").starting_subsong(3).sample_rate(22050);
    assert_eq!(b.sample_path(), "other.smpl");
    assert_eq!(b.song_index, 3);
    assert_eq!(b.sample_rate, 22050);
}

#[test]
fn build_reports_load_errors() {
    let r = PlayerBuilder::new("x").build_from(&[0u8; 100], &samples());
    assert!(matches!(r, Err(tfmxr::PlayerBuildError::MDat(tfmxr::MdatLoadError::IoError))));
}

#[test]
fn synthetic_song_renders_hand_computed_loop() {
    let mut p = player();
    let mut got = pcm(&p.next_chunk());
    assert_eq!(got.len(), 2 * 4096);
    got.extend(pcm(&p.next_chunk()));
    assert_eq!(got.len(), 4 * 2 * 2048);
    assert_eq!(got, expected(4 * 2048));
    assert_eq!(got[2 * 1763], 0);
    assert_eq!(got[2 * 1764 + 1], ((64 * 17 * 11) >> 4) as i16);
}

#[test]
fn restart_is_deterministic() {
    let mut a = player();
    let mut b = player();
    for _ in 0..3 {
        a.next_chunk();
    }
    a.restart();
    b.restart();
    for _ in 0..4 {
        assert_eq!(a.next_chunk(), b.next_chunk());
    }
}

#[test]
fn next_subsong_restarts_cleanly() {
    let mut p = player();
    p.next_chunk();
    assert_eq!(p.tfmx.cdb[0].cur_vol, 0x40);
    assert!(p.apply_command(PlayerCmd::ToggleBlend));
    assert!(!p.audio.blend);
    assert!(p.apply_command(PlayerCmd::Next));
    assert_eq!(p.current_song_index(), 1);
    assert_eq!(p.status().current_song_idx, 1);
    assert!(p.audio.blend);
    assert_eq!(p.tfmx.mdb.master_vol, 0x40);
    for i in 0..8 {
        let c = p.tfmx.cdb[i];
        assert_eq!(c.cur_vol, 0);
        assert_eq!(c.env_reset, 0);
        assert_eq!(c.vib_reset, 0);
        assert_eq!(c.vib_offset, 0);
        assert_eq!(c.porta_rate, 0);
        assert_eq!(p.tfmx.hdb[i].vol, 0);
    }
    assert!(p.apply_command(PlayerCmd::Prev));
    assert_eq!(p.current_song_index(), 0);
    assert!(p.apply_command(PlayerCmd::Prev));
    assert_eq!(p.current_song_index(), 0);
}

#[test]
fn toggle_channel_and_bad_index() {
    let mut p = player();
    assert!(p.apply_command(PlayerCmd::ToggleCh(0)));
    assert!(!p.ch_on[0]);
    let muted = pcm(&p.next_chunk());
    assert!(muted.iter().all(|&s| s == 0));
    assert!(!p.apply_command(PlayerCmd::ToggleCh(8)));
    assert_eq!(p.ch_on, vec![false, true, true, true, true, true, true, true]);
}

#[test]
fn subsong_index_wraps_after_last() {
    assert_eq!(next_song(0), 1);
    assert_eq!(next_song(31), 0);
}

#[test]
fn chunks_are_never_empty_while_playing() {
    let mut p = player();
    for _ in 0..3 {
        let c = p.next_chunk();
        assert!(p.tfmx.mdb.player_enable);
        assert!(c.len() >= 2 * 8192);
    }
}
