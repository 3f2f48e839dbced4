//! The engine's state: per-channel control blocks, per-voice blocks, the
//! sequencer's blocks and the global playback block.
use vstd::prelude::*;

verus! {

/// Number of logical channels that the sequencer drives.
pub const MAX_CHANNELS: usize = 8;
/// Number of channel control blocks.
pub const NUM_CDB: usize = 16;
/// Capacity of the program image in words.
pub const EDITBUF_WORDS: usize = 16384;
/// Length of the program image: its capacity and one slot for the terminator.
pub const EDITBUF_LEN: usize = 16385;
/// Timer reload value for 125 bpm.
pub const DEFAULT_E_CLOCKS: u32 = 14318;

/// Channel control block: the state of one channel's macro interpreter.
#[derive(Debug, Copy, Clone)]
pub struct Cdb {
    pub macro_run: i8,
    pub efx_run: i8,
    pub new_style_macro: u8,
    pub prev_note: u8,
    pub curr_note: u8,
    pub velocity: u8,
    pub fine_tune: u8,
    pub key_up: u8,
    pub really_wait: u8,
    pub macro_ptr: u32,
    pub macro_step: u16,
    pub macro_wait: u16,
    pub macro_num: u16,
    pub loop_: i16,
    pub curr_addr: u32,
    pub save_addr: u32,
    pub curr_len: u16,
    pub save_len: u16,
    pub wait_dma_count: u16,
    pub env_reset: u8,
    pub env_time: u8,
    pub env_rate: u8,
    pub env_end_vol: i8,
    pub cur_vol: i8,
    pub vib_offset: i16,
    pub vib_width: i8,
    pub vib_flag: u8,
    pub vib_reset: u8,
    pub vib_time: u8,
    pub porta_reset: u8,
    pub porta_time: u8,
    pub cur_period: u16,
    pub dest_period: u16,
    pub porta_per: u16,
    pub porta_rate: i16,
    pub add_begin_time: u8,
    pub add_begin_reset: u8,
    pub return_ptr: u16,
    pub return_step: u16,
    pub add_begin: i32,
    pub sfx_flag: u8,
    pub sfx_priority: u8,
    pub sfx_lock_time: i16,
    pub sfx_code: u32,
    pub hw_idx: usize,
}

/// What a voice does when its sample window runs out.
#[derive(Debug, Copy, Clone, PartialEq, Eq, Structural)]
pub enum LoopBehavior {
    /// Loop the saved window.
    Off,
    /// Loop the saved window and count down the channel's DMA wait; when it
    /// reaches zero, restart the channel's macro.
    PendingDmaWait,
}

/// Voice block: one output voice of the emulated sound chip.
#[derive(Debug, Copy, Clone)]
pub struct Hdb {
    /// Playback position, with `FRACTION_BITS` fractional bits.
    pub pos: u32,
    /// Position step per output sample, in the same format.
    pub delta: u32,
    /// Length in samples of the window that plays now.
    pub slen: u16,
    /// Length in samples of the loop window.
    pub sample_len: u16,
    /// Start of the window that plays now.
    pub sbeg: usize,
    /// Start of the loop window.
    pub sample_start: usize,
    pub vol: u8,
    pub mode: u8,
    pub loop_fn: LoopBehavior,
    pub cdb_idx: Option<usize>,
}

/// Global playback block.
#[derive(Debug, Copy, Clone)]
pub struct Mdb {
    pub player_enable: bool,
    pub end_flag: bool,
    pub curr_song: i8,
    pub speed_cnt: u16,
    pub cia_save: u16,
    pub play_patt_flag: u16,
    pub master_vol: i8,
    pub fade_dest: i8,
    pub fade_time: i8,
    pub fade_reset: i8,
    pub fade_slope: i8,
    pub track_loop: i16,
}

/// Pattern block: the cursor of one channel's pattern program.
#[derive(Debug, Copy, Clone)]
pub struct Pdb {
    pub addr: u32,
    pub num: u8,
    pub xpose: i8,
    pub loop_: u16,
    pub step: u16,
    pub wait: u8,
    pub ro_addr: u16,
    pub ro_step: u16,
}

/// Sequencer block: song positions and the pattern blocks.
#[derive(Debug)]
pub struct Pdblk {
    pub first_pos: u16,
    pub last_pos: u16,
    pub curr_pos: u16,
    pub prescale: u16,
    pub p: Vec<Pdb>,
}

impl Cdb {
    /// No volume, envelope, vibrato, portamento or running macro.
    pub open spec fn at_rest(&self) -> bool {
        &&& self.cur_vol == 0
        &&& self.env_reset == 0 && self.env_time == 0 && self.env_rate == 0 && self.env_end_vol == 0
        &&& self.vib_reset == 0 && self.vib_time == 0 && self.vib_width == 0 && self.vib_offset == 0
        &&& self.porta_rate == 0 && self.cur_period == 0 && self.dest_period == 0
        &&& self.macro_run == 0
    }

    pub open spec fn zeroed() -> Cdb {
        Cdb {
            macro_run: 0, efx_run: 0, new_style_macro: 0, prev_note: 0, curr_note: 0,
            velocity: 0, fine_tune: 0, key_up: 0, really_wait: 0, macro_ptr: 0,
            macro_step: 0, macro_wait: 0, macro_num: 0, loop_: 0, curr_addr: 0,
            save_addr: 0, curr_len: 0, save_len: 0, wait_dma_count: 0, env_reset: 0,
            env_time: 0, env_rate: 0, env_end_vol: 0, cur_vol: 0, vib_offset: 0,
            vib_width: 0, vib_flag: 0, vib_reset: 0, vib_time: 0, porta_reset: 0,
            porta_time: 0, cur_period: 0, dest_period: 0, porta_per: 0, porta_rate: 0,
            add_begin_time: 0, add_begin_reset: 0, return_ptr: 0, return_step: 0,
            add_begin: 0, sfx_flag: 0, sfx_priority: 0, sfx_lock_time: 0, sfx_code: 0,
            hw_idx: 0,
        }
    }

    /// A block with every field zero.
    pub fn default() -> (r: Cdb)
        ensures
            r == Cdb::zeroed(),
    {
        Cdb {
            macro_run: 0, efx_run: 0, new_style_macro: 0, prev_note: 0, curr_note: 0,
            velocity: 0, fine_tune: 0, key_up: 0, really_wait: 0, macro_ptr: 0,
            macro_step: 0, macro_wait: 0, macro_num: 0, loop_: 0, curr_addr: 0,
            save_addr: 0, curr_len: 0, save_len: 0, wait_dma_count: 0, env_reset: 0,
            env_time: 0, env_rate: 0, env_end_vol: 0, cur_vol: 0, vib_offset: 0,
            vib_width: 0, vib_flag: 0, vib_reset: 0, vib_time: 0, porta_reset: 0,
            porta_time: 0, cur_period: 0, dest_period: 0, porta_per: 0, porta_rate: 0,
            add_begin_time: 0, add_begin_reset: 0, return_ptr: 0, return_step: 0,
            add_begin: 0, sfx_flag: 0, sfx_priority: 0, sfx_lock_time: 0, sfx_code: 0,
            hw_idx: 0,
        }
    }
}

impl Hdb {
    pub open spec fn zeroed() -> Hdb {
        Hdb {
            pos: 0, delta: 0, slen: 0, sample_len: 0, sbeg: 0, sample_start: 0, vol: 0,
            mode: 0, loop_fn: LoopBehavior::Off, cdb_idx: None,
        }
    }

    /// A silent voice at rest.
    pub fn default() -> (r: Hdb)
        ensures
            r == Hdb::zeroed(),
    {
        Hdb {
            pos: 0, delta: 0, slen: 0, sample_len: 0, sbeg: 0, sample_start: 0, vol: 0,
            mode: 0, loop_fn: LoopBehavior::Off, cdb_idx: None,
        }
    }
}

impl Mdb {
    pub open spec fn zeroed() -> Mdb {
        Mdb {
            player_enable: false, end_flag: false, curr_song: 0, speed_cnt: 0, cia_save: 0,
            play_patt_flag: 0, master_vol: 0, fade_dest: 0, fade_time: 0, fade_reset: 0,
            fade_slope: 0, track_loop: 0,
        }
    }

    /// A disabled player block with every field zero.
    pub fn default() -> (r: Mdb)
        ensures
            r == Mdb::zeroed(),
    {
        Mdb {
            player_enable: false, end_flag: false, curr_song: 0, speed_cnt: 0, cia_save: 0,
            play_patt_flag: 0, master_vol: 0, fade_dest: 0, fade_time: 0, fade_reset: 0,
            fade_slope: 0, track_loop: 0,
        }
    }
}

impl Pdb {
    pub open spec fn zeroed() -> Pdb {
        Pdb { addr: 0, num: 0, xpose: 0, loop_: 0, step: 0, wait: 0, ro_addr: 0, ro_step: 0 }
    }

    /// A pattern cursor with every field zero.
    pub fn default() -> (r: Pdb)
        ensures
            r == Pdb::zeroed(),
    {
        Pdb { addr: 0, num: 0, xpose: 0, loop_: 0, step: 0, wait: 0, ro_addr: 0, ro_step: 0 }
    }
}

impl Pdblk {
    pub open spec fn wf(&self) -> bool {
        self.p@.len() == MAX_CHANNELS
    }

    /// Positions at zero and eight zeroed pattern cursors.
    pub fn default() -> (r: Pdblk)
        ensures
            r.wf(),
            r.first_pos == 0 && r.last_pos == 0 && r.curr_pos == 0 && r.prescale == 0,
            forall|i: int| 0 <= i < MAX_CHANNELS ==> #[trigger] r.p@[i] == Pdb::zeroed(),
    {
        let mut p: Vec<Pdb> = Vec::new();
        let mut i: usize = 0;
        while i < MAX_CHANNELS
            invariant
                i <= MAX_CHANNELS,
                p@.len() == i,
                forall|j: int| 0 <= j < i ==> #[trigger] p@[j] == Pdb::zeroed(),
            decreases MAX_CHANNELS - i,
        {
            p.push(Pdb::default());
            i = i + 1;
        }
        Pdblk { first_pos: 0, last_pos: 0, curr_pos: 0, prescale: 0, p }
    }
}

} // verus!
