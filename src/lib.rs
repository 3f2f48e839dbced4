//! Replay engine for TFMX tracker music: loads a song file, runs its macro
//! and pattern programs tick by tick, and renders interleaved 16-bit stereo
//! PCM.
use vstd::prelude::*;

pub mod ctx;
pub mod header;
pub mod loader;
pub mod macros;
pub mod notes;
pub mod rendering;
pub mod state;
pub mod text;
pub mod tracks;
pub mod word;

use crate::ctx::TfmxCtx;
use crate::header::{Header, MAX_SONGS};
use crate::loader::{load_mdat, load_outcome};
use crate::rendering::{present_output, ring_bytes, try_to_makeblock, AudioCtx, BLOCKSIZE, BUFSIZE, HALFBUFSIZE};
use crate::state::{LoopBehavior, MAX_CHANNELS, NUM_CDB};
use crate::tracks::{init, start_song};

verus! {

/// Why a song file could not be loaded.
#[derive(Debug, Clone, Copy, PartialEq, Eq)]
pub enum MdatLoadError {
    /// The file does not carry a TFMX signature.
    MagicMismatch,
    /// The header record could not be read in full.
    IoError,
    /// Too few words of program data followed the header.
    EditBufferTooSmall { size: usize },
    /// The first entry of a pointer table lies before the program data.
    PreprocessError,
}

/// Why a player could not be built.
#[derive(Debug, Clone, Copy, PartialEq, Eq)]
pub enum PlayerBuildError {
    /// One of the files could not be read.
    Io,
    /// The song file is not a valid TFMX file.
    MDat(MdatLoadError),
}

/// A command from the consumer of the rendered PCM.
#[derive(Debug, Clone, Copy, PartialEq, Eq)]
pub enum PlayerCmd {
    /// Switch to the previous subsong.
    Prev,
    /// Switch to the next subsong.
    Next,
    /// Toggle stereo blending.
    ToggleBlend,
    /// Mute or unmute the channel with this index.
    ToggleCh(u8),
}

/// What a front end shows of a running player.
#[derive(Debug, Clone, Copy, PartialEq, Eq, Default)]
pub struct PlayerStatus {
    pub current_song_idx: u8,
}

/// Collects what a player is built from.
pub struct PlayerBuilder {
    pub mdat_path: String,
    pub smpl_path: Option<String>,
    pub song_index: u8,
    pub sample_rate: u32,
}

/// The path of a sample file named after a song file: each "mdat." in `s`
/// replaced by "smpl.".
pub uninterp spec fn replaced(s: Seq<char>, from: Seq<char>, to: Seq<char>) -> Seq<char>;

/// Relies on `str::replace`: a new string with every match of `from`
/// replaced by `to`, a function of the three strings alone.
#[verifier::external_body]
fn replace_all(s: &str, from: &str, to: &str) -> (r: String)
    ensures
        r@ == replaced(s@, from@, to@),
{
    s.replace(from, to)
}

/// Default output rate.
pub const DEFAULT_SAMPLE_RATE: u32 = 44_100;

impl PlayerBuilder {
    /// A builder for the song file at `mdat_path`, subsong 0, 44100 Hz.
    pub fn new(mdat_path: &str) -> (r: PlayerBuilder)
        ensures
            r.mdat_path@ == mdat_path@,
            r.smpl_path is None,
            r.song_index == 0,
            r.sample_rate == DEFAULT_SAMPLE_RATE,
    {
        PlayerBuilder {
            mdat_path: mdat_path.to_owned(),
            smpl_path: None,
            song_index: 0,
            sample_rate: DEFAULT_SAMPLE_RATE,
        }
    }

    /// Names the sample file explicitly.
    pub fn smpl_file(&mut self, path: &str) -> (r: &mut PlayerBuilder)
        ensures
            r.smpl_path is Some && r.smpl_path->Some_0@ == path@,
            r.mdat_path == old(self).mdat_path,
            r.song_index == old(self).song_index,
            r.sample_rate == old(self).sample_rate,
            *final(self) == *final(r),
    {
        self.smpl_path = Some(path.to_owned());
        self
    }

    /// The subsong to start with.
    pub fn starting_subsong(&mut self, idx: u8) -> (r: &mut PlayerBuilder)
        requires
            idx < MAX_SONGS,
        ensures
            r.song_index == idx,
            r.mdat_path == old(self).mdat_path,
            r.smpl_path == old(self).smpl_path,
            r.sample_rate == old(self).sample_rate,
            *final(self) == *final(r),
    {
        self.song_index = idx;
        self
    }

    /// The rate at which the song is rendered.
    pub fn sample_rate(&mut self, rate: u32) -> (r: &mut PlayerBuilder)
        ensures
            r.sample_rate == rate,
            r.mdat_path == old(self).mdat_path,
            r.smpl_path == old(self).smpl_path,
            r.song_index == old(self).song_index,
            *final(self) == *final(r),
    {
        self.sample_rate = rate;
        self
    }

    /// The path of the sample file: the one named, or else the song file's
    /// path with "mdat." replaced by "smpl.".
    pub fn sample_path(&self) -> (r: String)
        ensures
            r@ == match self.smpl_path {
                Some(p) => p@,
                None => replaced(self.mdat_path@, "mdat."@, "smpl."@),
            },
    {
        match &self.smpl_path {
            Some(p) => p.clone(),
            None => replace_all(self.mdat_path.as_str(), "mdat.", "smpl."),
        }
    }

    /// Builds the player from the song file's bytes and the sample file's
    /// bytes.
    pub fn build_from(&self, mdat: &[u8], smpl: &[u8]) -> (r: Result<TfmxPlayer, PlayerBuildError>)
        requires
            self.song_index < MAX_SONGS,
        ensures
            load_outcome(mdat@, 0) matches Some(e) ==> r == Err::<TfmxPlayer, PlayerBuildError>(PlayerBuildError::MDat(e)),
            load_outcome(mdat@, 0) is None ==> r is Ok,
            r is Ok ==> {
                let p = r->Ok_0;
                &&& p.just_started()
                &&& p.song_idx == self.song_index
                &&& p.tfmx.out_rate == self.sample_rate
                &&& p.sample_buf@.len() == smpl@.len()
                &&& forall|i: int| 0 <= i < smpl@.len() ==> #[trigger] p.sample_buf@[i] == smpl@[i] as i8
                &&& forall|i: int| 0 <= i < MAX_CHANNELS ==> #[trigger] p.ch_on@[i]
            },
    {
        let mut tfmx = TfmxCtx::new(self.sample_rate);
        let header = match load_mdat(mdat, &mut tfmx) {
            Ok(h) => h,
            Err(e) => {
                return Err(PlayerBuildError::MDat(e));
            },
        };
        let mut sample_buf: Vec<i8> = Vec::new();
        let mut i: usize = 0;
        while i < smpl.len()
            invariant
                i <= smpl@.len(),
                sample_buf@.len() == i,
                forall|j: int| 0 <= j < i ==> #[trigger] sample_buf@[j] == smpl@[j] as i8,
            decreases smpl@.len() - i,
        {
            sample_buf.push(smpl[i] as i8);
            i = i + 1;
        }
        let mut ch_on: Vec<bool> = Vec::new();
        let mut k: usize = 0;
        while k < MAX_CHANNELS
            invariant
                k <= MAX_CHANNELS,
                ch_on@.len() == k,
                forall|j: int| 0 <= j < k ==> #[trigger] ch_on@[j],
            decreases MAX_CHANNELS - k,
        {
            ch_on.push(true);
            k = k + 1;
        }
        let mut player = TfmxPlayer {
            tfmx,
            header,
            sample_buf,
            song_idx: self.song_index,
            ch_on,
            audio: AudioCtx::new(),
            primed: false,
        };
        player.restart();
        Ok(player)
    }
}

/// A loaded song, ready to render.
pub struct TfmxPlayer {
    pub tfmx: TfmxCtx,
    pub header: Header,
    pub sample_buf: Vec<i8>,
    pub song_idx: u8,
    pub ch_on: Vec<bool>,
    pub audio: AudioCtx,
    /// Whether the ring has been filled since the subsong started.
    pub primed: bool,
}

/// Most subsong changes that one call of `next_chunk` makes while it looks
/// for a subsong that plays.
pub const SONG_SEARCH_LIMIT: u32 = 33;

impl TfmxPlayer {
    pub open spec fn wf(&self) -> bool {
        &&& self.tfmx.wf()
        &&& self.header.wf()
        &&& self.audio.wf()
        &&& self.audio.samples_done < BLOCKSIZE
        &&& self.ch_on@.len() == MAX_CHANNELS
        &&& self.song_idx < MAX_SONGS
    }

    /// The state right after the current subsong started afresh: every
    /// channel, voice and sequencer block back to the engine's pristine
    /// state and then set up for the subsong, an empty ring with the blend on,
    /// and the player enabled at the subsong's first position.
    pub open spec fn just_started(&self) -> bool {
        &&& self.wf()
        &&& !self.primed
        &&& self.audio.available() == 0
        &&& self.audio.blend
        &&& self.audio.samples_done == 0
        &&& self.audio.e_rem == 0
        &&& self.tfmx.mdb.player_enable
        &&& self.tfmx.pdblk.first_pos == self.header.song_starts@[self.song_idx as int]
        &&& self.tfmx.pdblk.last_pos == self.header.song_ends@[self.song_idx as int]
        &&& forall|i: int| 0 <= i < 4 ==> #[trigger] self.tfmx.cue@[i] == 0
        &&& forall|i: int| 0 <= i < NUM_CDB ==> (#[trigger] self.tfmx.cdb@[i]).at_rest()
        &&& forall|i: int| 0 <= i < MAX_CHANNELS ==> {
            &&& (#[trigger] self.tfmx.cdb@[i]).hw_idx == i
            &&& self.tfmx.hdb@[i].vol == 0
            &&& self.tfmx.hdb@[i].mode == 0
            &&& self.tfmx.hdb@[i].loop_fn == LoopBehavior::Off
        }
    }

    /// The subsong playing now.
    pub fn current_song_index(&self) -> (r: u8)
        ensures
            r == self.song_idx,
    {
        self.song_idx
    }

    /// The status a front end shows.
    pub fn status(&self) -> (r: PlayerStatus)
        ensures
            r.current_song_idx == self.song_idx,
    {
        PlayerStatus { current_song_idx: self.song_idx }
    }

    /// Starts the current subsong afresh: every channel, voice and sequencer
    /// block back to the engine's pristine state, an empty ring with the blend
    /// on, and the subsong's first track row read.
    pub fn restart(&mut self)
        requires
            old(self).tfmx.wf(),
            old(self).header.wf(),
            old(self).ch_on@.len() == MAX_CHANNELS,
            old(self).song_idx < MAX_SONGS,
        ensures
            final(self).wf(),
            final(self).song_idx == old(self).song_idx,
            final(self).ch_on == old(self).ch_on,
            final(self).header == old(self).header,
            final(self).sample_buf == old(self).sample_buf,
            final(self).tfmx.same_program(&old(self).tfmx),
            final(self).just_started(),
    {
        self.audio = AudioCtx::new();
        self.tfmx.reset_state();
        proof {
            assert forall|i: int| 0 <= i < NUM_CDB implies (#[trigger] self.tfmx.cdb@[i]).at_rest() by {
                assert(self.tfmx.cdb@[i] == crate::state::Cdb::zeroed());
            }
        }
        init(&mut self.tfmx);
        start_song(self.song_idx, 0, &self.header, &mut self.tfmx);
        self.primed = false;
    }

    /// Renders and hands out the next chunk of PCM (interleaved 16-bit
    /// stereo, little-endian bytes). When the subsong ends, the next one
    /// starts; the chunk is empty only when no subsong would play.
    pub fn next_chunk(&mut self) -> (r: Vec<u8>)
        requires
            old(self).wf(),
        ensures
            final(self).wf(),
            final(self).ch_on == old(self).ch_on,
            final(self).header == old(self).header,
            final(self).sample_buf == old(self).sample_buf,
            final(self).tfmx.same_program(&old(self).tfmx),
            final(self).audio.available() == 0,
            final(self).tfmx.mdb.player_enable ==> r@.len() >= 2 * HALFBUFSIZE,
            !final(self).tfmx.mdb.player_enable ==> r@.len() == 0,
            r@ == ring_bytes(final(self).audio.buf@,
                (final(self).audio.bhead + BUFSIZE - r@.len() / 2) % (BUFSIZE as int), (r@.len() / 2) as int),
    {
        let mut tries: u32 = SONG_SEARCH_LIMIT;
        while tries > 0
            invariant
                self.wf(),
                self.ch_on == old(self).ch_on,
                self.header == old(self).header,
                self.sample_buf == old(self).sample_buf,
                self.tfmx.same_program(&old(self).tfmx),
            decreases tries,
        {
            tries = tries - 1;
            if !self.primed {
                let mut fills: u32 = 2;
                while fills > 0
                    invariant
                        self.wf(),
                        self.ch_on == old(self).ch_on,
                        self.header == old(self).header,
                        self.sample_buf == old(self).sample_buf,
                        self.tfmx.same_program(&old(self).tfmx),
                    decreases fills,
                {
                    fills = fills - 1;
                    match try_to_makeblock(&self.header, &mut self.audio, &mut self.tfmx, self.sample_buf.as_slice(), &self.ch_on) {
                        Some(0) | None => {
                            fills = 0;
                        },
                        Some(_) => {},
                    }
                }
                self.primed = true;
            }
            match try_to_makeblock(&self.header, &mut self.audio, &mut self.tfmx, self.sample_buf.as_slice(), &self.ch_on) {
                Some(_) => {
                    return present_output(&mut self.audio);
                },
                None => {
                    self.song_idx = next_song(self.song_idx);
                    self.restart();
                },
            }
        }
        // no subsong in a row of them played: stop until the next call
        self.tfmx.mdb.player_enable = false;
        self.audio.btail = self.audio.bhead;
        Vec::new()
    }

    /// Carries out a command. Switching subsong restarts playback at the new
    /// index; an unknown channel index changes nothing and is reported by
    /// returning `false`.
    pub fn apply_command(&mut self, cmd: PlayerCmd) -> (ok: bool)
        requires
            old(self).wf(),
        ensures
            final(self).wf(),
            final(self).header == old(self).header,
            final(self).sample_buf == old(self).sample_buf,
            ok == (cmd matches PlayerCmd::ToggleCh(i) ==> i < MAX_CHANNELS),
            cmd == PlayerCmd::Prev ==> final(self).song_idx == (if old(self).song_idx == 0 { 0 } else { (old(self).song_idx - 1) as u8 }),
            cmd == PlayerCmd::Next ==> final(self).song_idx == next_song_spec(old(self).song_idx),
            cmd == PlayerCmd::Prev || cmd == PlayerCmd::Next ==> {
                &&& final(self).just_started()
                &&& final(self).ch_on == old(self).ch_on
                &&& final(self).tfmx.same_program(&old(self).tfmx)
            },
            cmd == PlayerCmd::ToggleBlend ==> {
                &&& final(self).audio.blend == !old(self).audio.blend
                &&& final(self).audio.buf == old(self).audio.buf
                &&& final(self).audio.tbuf == old(self).audio.tbuf
                &&& final(self).audio.bhead == old(self).audio.bhead
                &&& final(self).audio.btail == old(self).audio.btail
                &&& final(self).audio.samples_done == old(self).audio.samples_done
                &&& final(self).audio.e_rem == old(self).audio.e_rem
                &&& final(self).tfmx == old(self).tfmx
                &&& final(self).song_idx == old(self).song_idx
                &&& final(self).ch_on == old(self).ch_on
                &&& final(self).primed == old(self).primed
            },
            cmd matches PlayerCmd::ToggleCh(i) ==> {
                &&& final(self).song_idx == old(self).song_idx
                &&& final(self).audio == old(self).audio
                &&& final(self).tfmx == old(self).tfmx
                &&& final(self).primed == old(self).primed
                &&& final(self).ch_on@ == if i < MAX_CHANNELS {
                    old(self).ch_on@.update(i as int, !old(self).ch_on@[i as int])
                } else {
                    old(self).ch_on@
                }
            },
    {
        match cmd {
            PlayerCmd::Prev => {
                self.song_idx = if self.song_idx == 0 { 0 } else { self.song_idx - 1 };
                self.restart();
                true
            },
            PlayerCmd::Next => {
                self.song_idx = next_song(self.song_idx);
                self.restart();
                true
            },
            PlayerCmd::ToggleBlend => {
                self.audio.toggle_blend();
                true
            },
            PlayerCmd::ToggleCh(i) => {
                if (i as usize) < MAX_CHANNELS {
                    let on = self.ch_on[i as usize];
                    self.ch_on.set(i as usize, !on);
                    true
                } else {
                    false
                }
            },
        }
    }
}

/// The subsong after `idx`, back to 0 after the last slot.
pub open spec fn next_song_spec(idx: u8) -> u8 {
    if idx as int + 1 >= MAX_SONGS { 0 } else { (idx + 1) as u8 }
}

/// The subsong after `idx`, back to 0 after the last slot.
pub fn next_song(idx: u8) -> (r: u8)
    ensures
        r == next_song_spec(idx),
        r < MAX_SONGS,
{
    if idx as usize + 1 >= MAX_SONGS { 0 } else { idx + 1 }
}

} // verus!
