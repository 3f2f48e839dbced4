//! The engine context: the program image, the configuration, and the state
//! blocks that one tick of the engine mutates.
use vstd::prelude::*;
use crate::state::{Cdb, Hdb, LoopBehavior, Mdb, Pdb, Pdblk, DEFAULT_E_CLOCKS, EDITBUF_LEN, MAX_CHANNELS, NUM_CDB};

verus! {

/// The whole replay engine, one per player.
#[derive(Debug)]
pub struct TfmxCtx {
    pub danger_freak_hack: bool,
    pub oops_up_hack: bool,
    pub single_file: bool,
    pub ntfhd_offset: u32,
    pub out_rate: u32,
    /// The program image, decoded to native words.
    pub editbuf: Vec<u32>,
    pub gemx: bool,
    pub loops: i32,
    pub hdb: Vec<Hdb>,
    pub mdb: Mdb,
    pub cdb: Vec<Cdb>,
    pub pdblk: Pdblk,
    /// Cue registers, for the host; the engine never reads them.
    pub cue: Vec<u16>,
    pub jiffies: i32,
    pub multimode: bool,
    pub e_clocks: u32,
}

/// The word at `base + off` of the image, if the image holds it.
pub open spec fn word_at(buf: Seq<u32>, base: int, off: int) -> Option<u32> {
    if 0 <= base + off < buf.len() { Some(buf[base + off]) } else { None }
}

/// Reads a word of the program image; `None` past its end.
pub fn fetch(buf: &Vec<u32>, base: usize, off: usize) -> (r: Option<u32>)
    ensures
        r == word_at(buf@, base as int, off as int),
{
    if base < buf.len() && off < buf.len() - base {
        Some(buf[base + off])
    } else {
        None
    }
}

/// Entry `idx` of the pointer table at `base`; a missing entry reads as 0.
pub open spec fn table_entry(buf: Seq<u32>, base: int, idx: int) -> u32 {
    match word_at(buf, base, idx) {
        Some(w) => w,
        None => 0,
    }
}

pub fn fetch_entry(buf: &Vec<u32>, base: usize, idx: usize) -> (r: u32)
    ensures
        r == table_entry(buf@, base as int, idx as int),
{
    match fetch(buf, base, idx) {
        Some(w) => w,
        None => 0,
    }
}

impl TfmxCtx {
    pub open spec fn wf(&self) -> bool {
        &&& self.editbuf@.len() == EDITBUF_LEN
        &&& self.cdb@.len() == NUM_CDB
        &&& self.hdb@.len() == MAX_CHANNELS
        &&& self.pdblk.wf()
        &&& self.cue@.len() == 4
        &&& forall|i: int| 0 <= i < NUM_CDB ==> #[trigger] self.cdb@[i].hw_idx < MAX_CHANNELS
    }

    /// The parts that no tick changes: the image and the configuration.
    pub open spec fn same_program(&self, o: &TfmxCtx) -> bool {
        &&& self.editbuf@ == o.editbuf@
        &&& self.out_rate == o.out_rate
        &&& self.danger_freak_hack == o.danger_freak_hack
        &&& self.oops_up_hack == o.oops_up_hack
        &&& self.gemx == o.gemx
        &&& self.single_file == o.single_file
        &&& self.ntfhd_offset == o.ntfhd_offset
    }

    /// Every channel still drives the voice it drove before.
    pub open spec fn same_mapping(&self, o: &TfmxCtx) -> bool {
        forall|i: int| 0 <= i < NUM_CDB ==> #[trigger] self.cdb@[i].hw_idx == o.cdb@[i].hw_idx
    }

    /// Whether the state blocks are those of a freshly made engine.
    pub open spec fn pristine(&self) -> bool {
        &&& forall|i: int| 0 <= i < NUM_CDB ==> #[trigger] self.cdb@[i] == Cdb::zeroed()
        &&& forall|i: int| 0 <= i < MAX_CHANNELS ==> #[trigger] self.hdb@[i] == Hdb::zeroed()
        &&& forall|i: int| 0 <= i < MAX_CHANNELS ==> #[trigger] self.pdblk.p@[i] == Pdb::zeroed()
        &&& forall|i: int| 0 <= i < 4 ==> #[trigger] self.cue@[i] == 0
        &&& self.mdb == Mdb::zeroed()
        &&& self.pdblk.first_pos == 0 && self.pdblk.last_pos == 0
        &&& self.pdblk.curr_pos == 0 && self.pdblk.prescale == 0
        &&& self.loops == 0 && self.jiffies == 0 && !self.multimode
        &&& self.e_clocks == DEFAULT_E_CLOCKS
    }

    /// An engine with an empty program image that renders at `sample_rate`.
    pub fn new(sample_rate: u32) -> (r: TfmxCtx)
        ensures
            r.wf(),
            r.pristine(),
            r.out_rate == sample_rate,
            forall|i: int| 0 <= i < EDITBUF_LEN ==> #[trigger] r.editbuf@[i] == 0,
            !r.danger_freak_hack && !r.oops_up_hack && !r.gemx && !r.single_file,
            r.ntfhd_offset == 0,
    {
        let mut editbuf: Vec<u32> = Vec::new();
        let mut i: usize = 0;
        while i < EDITBUF_LEN
            invariant
                i <= EDITBUF_LEN,
                editbuf@.len() == i,
                forall|j: int| 0 <= j < i ==> #[trigger] editbuf@[j] == 0,
            decreases EDITBUF_LEN - i,
        {
            editbuf.push(0);
            i = i + 1;
        }
        let mut t = TfmxCtx {
            danger_freak_hack: false,
            oops_up_hack: false,
            single_file: false,
            ntfhd_offset: 0,
            out_rate: sample_rate,
            editbuf,
            gemx: false,
            loops: 0,
            hdb: Vec::new(),
            mdb: Mdb::default(),
            cdb: Vec::new(),
            pdblk: Pdblk::default(),
            cue: Vec::new(),
            jiffies: 0,
            multimode: false,
            e_clocks: DEFAULT_E_CLOCKS,
        };
        t.reset_state();
        t
    }

    /// Puts every state block back to what a freshly made engine holds; the
    /// program image and the configuration stay.
    pub fn reset_state(&mut self)
        requires
            old(self).editbuf@.len() == EDITBUF_LEN,
        ensures
            final(self).wf(),
            final(self).pristine(),
            final(self).same_program(old(self)),
    {
        let mut hdb: Vec<Hdb> = Vec::new();
        let mut cdb: Vec<Cdb> = Vec::new();
        let mut i: usize = 0;
        while i < NUM_CDB
            invariant
                i <= NUM_CDB,
                cdb@.len() == i,
                hdb@.len() == if i < MAX_CHANNELS { i } else { MAX_CHANNELS },
                forall|j: int| 0 <= j < i ==> #[trigger] cdb@[j] == Cdb::zeroed(),
                forall|j: int| 0 <= j < hdb@.len() ==> #[trigger] hdb@[j] == Hdb::zeroed(),
            decreases NUM_CDB - i,
        {
            cdb.push(Cdb::default());
            if i < MAX_CHANNELS {
                hdb.push(Hdb::default());
            }
            i = i + 1;
        }
        assert(forall|j: int| 0 <= j < NUM_CDB ==> #[trigger] cdb@[j].hw_idx == 0);
        self.hdb = hdb;
        self.cdb = cdb;
        self.mdb = Mdb::default();
        self.pdblk = Pdblk::default();
        let mut cue: Vec<u16> = Vec::new();
        cue.push(0);
        cue.push(0);
        cue.push(0);
        cue.push(0);
        self.cue = cue;
        self.loops = 0;
        self.jiffies = 0;
        self.multimode = false;
        self.e_clocks = DEFAULT_E_CLOCKS;
    }

    /// Stops the player and brings the first eight channels and their voices
    /// to rest, each channel bound to the voice of its own number.
    pub fn prepare(&mut self)
        requires
            old(self).wf(),
        ensures
            final(self).wf(),
            final(self).same_program(old(self)),
            !final(self).mdb.player_enable,
            forall|i: int| 0 <= i < MAX_CHANNELS ==> {
                &&& (#[trigger] final(self).cdb@[i]).hw_idx == i
                &&& final(self).cdb@[i].cur_vol == 0
                &&& final(self).cdb@[i].macro_run == 0
                &&& final(self).cdb@[i].sfx_flag == 0
                &&& final(self).hdb@[i].cdb_idx == Some(i as usize)
                &&& final(self).hdb@[i].mode == 0
                &&& final(self).hdb@[i].vol == 0
                &&& final(self).hdb@[i].loop_fn == LoopBehavior::Off
            },
            forall|i: int| MAX_CHANNELS <= i < NUM_CDB ==> #[trigger] final(self).cdb@[i] == old(self).cdb@[i],
            forall|i: int| 0 <= i < NUM_CDB && old(self).cdb@[i].at_rest() ==> #[trigger] final(self).cdb@[i].at_rest(),
            final(self).pdblk == old(self).pdblk,
            final(self).cue == old(self).cue,
            final(self).loops == old(self).loops,
            final(self).multimode == old(self).multimode,
    {
        self.mdb.player_enable = false;
        let mut i: usize = 0;
        while i < MAX_CHANNELS
            invariant
                i <= MAX_CHANNELS,
                self.wf(),
                self.same_program(old(self)),
                !self.mdb.player_enable,
                self.pdblk == old(self).pdblk,
                forall|j: int| 0 <= j < i ==> {
                    &&& (#[trigger] self.cdb@[j]).hw_idx == j
                    &&& self.cdb@[j].cur_vol == 0
                    &&& self.cdb@[j].macro_run == 0
                    &&& self.cdb@[j].sfx_flag == 0
                },
                forall|j: int| 0 <= j < i ==> {
                    &&& (#[trigger] self.hdb@[j]).cdb_idx == Some(j as usize)
                    &&& self.hdb@[j].mode == 0
                    &&& self.hdb@[j].vol == 0
                    &&& self.hdb@[j].loop_fn == LoopBehavior::Off
                },
                forall|j: int| i <= j < NUM_CDB ==> #[trigger] self.cdb@[j] == old(self).cdb@[j],
                forall|j: int| 0 <= j < NUM_CDB && old(self).cdb@[j].at_rest() ==> #[trigger] self.cdb@[j].at_rest(),
                self.cue == old(self).cue,
                self.loops == old(self).loops,
                self.multimode == old(self).multimode,
            decreases MAX_CHANNELS - i,
        {
            let mut hw = self.hdb[i];
            hw.mode = 0;
            hw.vol = 0;
            hw.cdb_idx = Some(i);
            hw.sbeg = 0;
            hw.sample_start = 0;
            hw.sample_len = 2;
            hw.slen = 2;
            hw.loop_fn = LoopBehavior::Off;
            self.hdb.set(i, hw);
            let mut c = self.cdb[i];
            c.hw_idx = i;
            c.macro_wait = 0;
            c.macro_run = 0;
            c.sfx_flag = 0;
            c.cur_vol = 0;
            c.sfx_code = 0;
            c.save_addr = 0;
            c.loop_ = -1;
            c.new_style_macro = 0xff;
            c.sfx_lock_time = -1;
            c.save_len = 2;
            self.cdb.set(i, c);
            assert(self.hdb@[i as int].cdb_idx == Some(i));
            i = i + 1;
        }
    }
}

} // verus!
