//! The module player: song position state machine, effect interpreter and mixer.
use vstd::prelude::*;
use crate::channel::{Channel, shifted_period};
use crate::pattern::{Event, Pattern, PATTERN_BYTES};
use crate::sample::{Sample, copy_bytes, text_of, lossy_utf8, be16};
use crate::tables::{period_table_ok, vib_table_ok, vib_value, build_period_table, build_vib_table};
use crate::voice::{Voice, contribution, FRAME_MAX};
use crate::play::{with_channel, Song, voices_rendered, advanced, vibrato_started, tremolo_started, trem_value, modulated, modulated_trem};

verus! {

/// `125 * OUT_RATE / OUT_FPS` with 48000 frames and 50 ticks per second:
/// the tick rate is this over the tempo.
pub const TICK_RATE_SCALE: usize = 120000;

/// Output frames per tick at tempo `bpm`.
pub open spec fn tick_rate_of(bpm: int) -> int {
    (125 * 48000) as int / (bpm * 50)
}

pub struct ModPlayer {
    pub name: String,
    pub samples: Vec<Sample>,
    pub patterns: Vec<Pattern>,
    pub pattern_list: Vec<usize>,
    pub pattern_count: usize,
    pub position_count: usize,
    pub p_table: Vec<Vec<u16>>,
    pub vib_table: Vec<Vec<Vec<i8>>>,
    /// Ticks per row.
    pub speed: usize,
    /// Output frames per tick.
    pub tick_rate: usize,
    /// Output frames left until the next tick.
    pub tr_counter: usize,
    pub cur_tick: usize,
    pub cur_row: isize,
    pub cur_pos: usize,
    /// Extra rows' worth of ticks for the current row.
    pub delay: usize,
    pub channels: Vec<Channel>,
    pub voices: Vec<Voice>,
}

/// The event that holds no note, sample or effect.
pub open spec fn empty_event() -> Event {
    Event { sample: 0, note: 0, fx: 0, fx_param: 0 }
}

impl ModPlayer {
    /// The tables, song data, channels and voices are well formed.
    pub open spec fn data_ok(&self) -> bool {
        &&& self.samples@.len() == 15 || self.samples@.len() == 31
        &&& forall|i: int| 0 <= i < self.samples@.len() ==> (#[trigger] self.samples@[i]).well_formed()
        &&& self.patterns@.len() == self.pattern_count
        &&& 1 <= self.pattern_count <= 256
        &&& forall|i: int| 0 <= i < self.patterns@.len() ==> (#[trigger] self.patterns@[i]).well_formed()
        &&& forall|i: int| 0 <= i < self.patterns@.len() ==> (#[trigger] self.patterns@[i]).events_bounded()
        &&& self.pattern_list@.len() == 128
        &&& forall|i: int| 0 <= i < 128 ==> #[trigger] self.pattern_list@[i] < self.pattern_count
        &&& self.position_count <= 255
        &&& period_table_ok(self.p_table@)
        &&& vib_table_ok(self.vib_table@)
        &&& self.channels@.len() == 4
        &&& forall|c: int| 0 <= c < 4 ==> (#[trigger] self.channels@[c]).well_formed()
        &&& self.voices@.len() == 4
        &&& forall|c: int| 0 <= c < 4 ==> (#[trigger] self.voices@[c]).well_formed()
        &&& forall|c: int| 0 <= c < 4 && (#[trigger] self.voices@[c]).sample is Some ==>
            self.voices@[c].sample->0 < self.samples@.len()
        &&& 1 <= self.speed <= 32
        &&& 1 <= self.tick_rate <= 3636
        &&& self.delay <= 15
        &&& self.cur_tick < 512
        &&& self.cur_pos <= 300
        &&& -1 <= self.cur_row <= 164
    }

    /// The state between two ticks.
    pub open spec fn well_formed(&self) -> bool {
        &&& self.data_ok()
        &&& self.tr_counter <= self.tick_rate
        &&& self.cur_tick < self.speed * (self.delay + 1)
        &&& 0 <= self.cur_row < 64
        &&& self.cur_pos <= self.position_count
        &&& self.cur_pos < 128
    }

    /// Sets the tempo: `tick_rate = 125 * 48000 / (bpm * 50)`.
    pub fn calc_tick_rate(&mut self, bpm: usize)
        requires
            33 <= bpm <= 255,
        ensures
            final(self).tick_rate as int == tick_rate_of(bpm as int),
            *final(self) == (ModPlayer { tick_rate: final(self).tick_rate, ..*old(self) }),
            1 <= final(self).tick_rate <= 3636,
    {
        self.tick_rate = TICK_RATE_SCALE / bpm;
        assert(TICK_RATE_SCALE as int / bpm as int == (125 * 48000) as int / (bpm * 50)) by (nonlinear_arith)
            requires
                TICK_RATE_SCALE == 120000,
                bpm >= 33,
        ;
        assert(1 <= TICK_RATE_SCALE as int / bpm as int <= 3636) by (nonlinear_arith)
            requires
                TICK_RATE_SCALE == 120000,
                33 <= bpm <= 255,
        ;
    }

    /// The event of channel `ch` at the current position and row.
    fn current_event(&self, ch: usize) -> (e: Event)
        requires
            self.data_ok(),
            ch < 4,
        ensures
            e == self.song().event_in(self.state(), ch as int),
            e.bounded(),
    {
        if self.cur_row < 0 || self.cur_row >= 64 || self.cur_pos >= 128 {
            return Event { sample: 0, note: 0, fx: 0, fx_param: 0 };
        }
        let pat = self.pattern_list[self.cur_pos];
        let row = self.cur_row as usize;
        let e = self.patterns[pat].rows[row].events[ch];
        proof {
            assert(self.patterns@[pat as int].events_bounded());
            assert(self.patterns@[pat as int].event(row as int, ch as int).bounded());
        }
        e
    }

    /// Ends a tick: advances the tick, row and position counters.
    fn advance_counters(&mut self)
        requires
            old(self).data_ok(),
        ensures
            final(self).data_ok(),
            final(self).state() == advanced(old(self).state(), old(self).position_count as int),
            final(self).same_song(&*old(self)),
    {
        self.cur_tick += 1;
        assert(self.speed * (self.delay + 1) <= 512) by (nonlinear_arith)
            requires
                1 <= self.speed <= 32,
                self.delay <= 15,
        ;
        let rows_ticks = self.speed * (self.delay + 1);
        let rolled = self.cur_tick >= rows_ticks;
        if rolled {
            self.cur_tick = 0;
            self.cur_row += 1;
            self.delay = 0;
        }
        if self.cur_row >= 64 {
            self.cur_row = 0;
            self.cur_pos += 1;
        } else if self.cur_row < 0 {
            self.cur_row = 0;
        }
        if self.cur_pos > self.position_count || self.cur_pos >= 128 {
            self.cur_pos = 0;
        }
    }
}

/// Whether `e` is a note delay (extended effect 13).
pub open spec fn is_note_delay(e: Event) -> bool {
    e.fx == 14 && e.fx_param / 16 == 13
}

/// The voice after a trigger of `smp` (sample `index`) from byte `offset`:
/// a looping sample plays to the loop's end and wraps back by the loop
/// length; any other plays to its end and holds on its last two bytes.
pub open spec fn triggered_voice(v: Voice, smp: Sample, index: int, offset: int) -> Voice {
    if smp.loop_len > 1 {
        v.started(index as usize, (2 * (smp.loop_start + smp.loop_len)) as usize, (2 * smp.loop_len) as usize, offset as usize)
    } else {
        v.started(index as usize, (2 * smp.length) as usize, 2, offset as usize)
    }
}

impl ModPlayer {
    /// The song, the tables and the render state are those of `other`.
    pub open spec fn same_song(&self, other: &ModPlayer) -> bool {
        &&& self.name == other.name
        &&& self.samples == other.samples
        &&& self.patterns == other.patterns
        &&& self.pattern_list == other.pattern_list
        &&& self.pattern_count == other.pattern_count
        &&& self.position_count == other.position_count
        &&& self.p_table == other.p_table
        &&& self.vib_table == other.vib_table
        &&& self.tr_counter == other.tr_counter
    }

    /// Speed, tempo and song position are those of `other`.
    pub open spec fn same_counters(&self, other: &ModPlayer) -> bool {
        &&& self.speed == other.speed
        &&& self.tick_rate == other.tick_rate
        &&& self.cur_tick == other.cur_tick
        &&& self.cur_row == other.cur_row
        &&& self.cur_pos == other.cur_pos
        &&& self.delay == other.delay
    }

    /// Triggers the note of channel `ch` for event `e`; a tone portamento
    /// (effects 3 and 5) does not restart the voice. Otherwise the channel
    /// takes its note's period, its oscillator phases restart unless their
    /// retrigger flag is set, and the voice starts the channel's sample (from
    /// `fx_buf[9] * 256` under effect 9).
    pub fn trig_note(&mut self, ch: usize, e: &Event)
        requires
            old(self).data_ok(),
            ch < 4,
            e.bounded(),
        ensures
            final(self).data_ok(),
            final(self).same_song(&*old(self)),
            final(self).state() == old(self).song().triggered(old(self).state(), ch as int, *e),
            final(self).same_counters(&*old(self)),
    {
        proof {
            reveal(Song::triggered);
        }
        if e.fx == 3 || e.fx == 5 {
            assert(self.state() =~= old(self).song().triggered(old(self).state(), ch as int, *e));
            return;
        }
        let offset: usize = if e.fx == 9 { self.channels[ch].fx_buf[9] * 256 } else { 0 };
        self.channels[ch].retrigger_state(&self.p_table);
        let s = self.channels[ch].sample;
        if s >= 1 && s <= self.samples.len() {
            let smp = &self.samples[s - 1];
            assert(smp.well_formed());
            if smp.loop_len > 1 {
                self.voices[ch].trigger(s - 1, 2 * (smp.loop_start + smp.loop_len), 2 * smp.loop_len, offset);
            } else {
                self.voices[ch].trigger(s - 1, 2 * smp.length, 2, offset);
            }
        }
        assert(self.state() =~= old(self).song().triggered(old(self).state(), ch as int, *e));
    }
}

impl ModPlayer {
    /// Entry `[wave][ampl - 1][x]` of the modulation table.
    fn vib_lookup(&self, wave: usize, ampl: usize, x: usize) -> (r: isize)
        requires
            self.data_ok(),
            wave < 3,
            1 <= ampl <= 15,
            x < 64,
        ensures
            r as int == vib_value(wave as int, ampl - 1, x as int),
            -128 <= r <= 127,
    {
        self.vib_table[wave][ampl - 1][x] as isize
    }

    /// Takes up the event's sample (its finetune, and its volume limited to
    /// 64) when the module has it, the effect parameter as effect memory, and
    /// the note, which is triggered unless the effect delays it.
    fn take_event(&mut self, ch: usize, e: Event)
        requires
            old(self).data_ok(),
            ch < 4,
            e.bounded(),
        ensures
            final(self).data_ok(),
            final(self).same_song(&*old(self)),
            final(self).state() == old(self).song().taken(old(self).state(), ch as int, e),
            final(self).same_counters(&*old(self)),
    {
        proof {
            reveal(Song::taken);
        }
        if e.sample > 0 && e.sample <= self.samples.len() {
            let ft = self.samples[e.sample - 1].finetune;
            let vol = self.samples[e.sample - 1].volume;
            assert(self.samples@[e.sample - 1].well_formed());
            self.channels[ch].sample = e.sample;
            self.channels[ch].fine_tune = ft as isize;
            self.channels[ch].volume = if vol > 64 { 64 } else { vol as usize };
        }
        if e.fx_param > 0 {
            self.channels[ch].fx_buf[e.fx] = e.fx_param;
        }
        let ghost mid = self.state();
        assert(mid =~= with_channel(old(self).state(), ch as int, mid.channels[ch as int]));
        if e.note > 0 && !(e.fx == 14 && e.fx_param / 16 == 13) {
            self.channels[ch].note = e.note;
            assert(self.state() =~= with_channel(old(self).state(), ch as int, Channel { note: e.note, ..mid.channels[ch as int] }));
            self.trig_note(ch, &e);
        }
        assert(self.state() =~= old(self).song().taken(old(self).state(), ch as int, e));
    }

    /// Row start of a vibrato: takes amplitude and speed from the effect
    /// memory and offsets the period by the current phase.
    fn vibrato_start(&mut self, ch: usize)
        requires
            old(self).data_ok(),
            ch < 4,
        ensures
            final(self).data_ok(),
            final(self).same_song(&*old(self)),
            final(self).state() == with_channel(old(self).state(), ch as int, vibrato_started(old(self).channels@[ch as int])),
    {
        let mem = self.channels[ch].fx_buf[4];
        if mem % 16 > 0 {
            self.channels[ch].vib_ampl = mem % 16;
        }
        if mem / 16 > 0 {
            self.channels[ch].vib_speed = mem / 16;
        }
        let a = self.channels[ch].vib_ampl;
        if a > 0 {
            let v = self.vib_lookup(self.channels[ch].vib_wave, a, self.channels[ch].vib_pos);
            self.channels[ch].set_period(&self.p_table, 0, v);
        }
        assert(self.state() =~= with_channel(old(self).state(), ch as int, vibrato_started(old(self).channels@[ch as int])));
    }

    /// Row start of a tremolo: takes amplitude and speed from the effect
    /// memory; returns the volume offset of the current phase, or 0 while
    /// the amplitude is 0.
    fn tremolo_start(&mut self, ch: usize) -> (trem: isize)
        requires
            old(self).data_ok(),
            ch < 4,
        ensures
            final(self).data_ok(),
            final(self).same_song(&*old(self)),
            final(self).state() == with_channel(old(self).state(), ch as int, tremolo_started(old(self).channels@[ch as int])),
            trem as int == trem_value(tremolo_started(old(self).channels@[ch as int])),
            -128 <= trem <= 127,
    {
        let mem = self.channels[ch].fx_buf[7];
        if mem % 16 > 0 {
            self.channels[ch].trem_ampl = mem % 16;
        }
        if mem / 16 > 0 {
            self.channels[ch].trem_speed = mem / 16;
        }
        assert(self.state() =~= with_channel(old(self).state(), ch as int, tremolo_started(old(self).channels@[ch as int])));
        let a = self.channels[ch].trem_ampl;
        if a > 0 {
            self.vib_lookup(self.channels[ch].trem_wave, a, self.channels[ch].trem_pos)
        } else {
            0
        }
    }

    /// Row start of an extended effect (effect 14): latches the low nibble
    /// as the sub-effect's memory `m`, then fine slides by `m`, sets a
    /// waveform, the finetune, retriggers, slides the volume by `m` or sets
    /// the row delay to `m`.
    #[verifier::rlimit(60)]
    fn extended_start(&mut self, ch: usize, e: Event)
        requires
            old(self).data_ok(),
            ch < 4,
            e.bounded(),
            e.fx == 14,
        ensures
            final(self).data_ok(),
            final(self).same_song(&*old(self)),
            final(self).state() == old(self).song().extended_started(old(self).state(), ch as int, e),
            final(self).cur_pos == old(self).cur_pos,
    {
        proof {
            reveal(Song::extended_started);
        }
        let sub = e.fx_param / 16;
        let lo = e.fx_param % 16;
        if lo > 0 {
            self.channels[ch].fx_buf14[sub] = lo;
        }
        let ghost mid = self.state();
        assert(mid =~= with_channel(old(self).state(), ch as int, mid.channels[ch as int]));
        let m = self.channels[ch].fx_buf14[sub];
        if sub == 1 {
            self.channels[ch].slide_up(m);
        } else if sub == 2 {
            self.channels[ch].slide_down(m);
        } else if sub == 4 {
            self.channels[ch].vib_wave = if m % 4 == 3 { 0 } else { m % 4 };
            self.channels[ch].vib_retr = (m / 4) % 2 * 4;
        } else if sub == 5 {
            self.channels[ch].fine_tune = if m >= 8 { m as isize - 16 } else { m as isize };
        } else if sub == 7 {
            self.channels[ch].trem_wave = if m % 4 == 3 { 0 } else { m % 4 };
            self.channels[ch].trem_retr = (m / 4) % 2 * 4;
        } else if sub == 9 {
            if m > 0 && e.note == 0 {
                self.trig_note(ch, &e);
                self.channels[ch].retrig_count = 0;
            }
        } else if sub == 10 {
            let v = self.channels[ch].volume + m;
            self.channels[ch].volume = if v > 64 { 64 } else { v };
        } else if sub == 11 {
            let v = self.channels[ch].volume;
            self.channels[ch].volume = if v < m { 0 } else { v - m };
        } else if sub == 14 {
            self.delay = m;
        }
        assert(self.state() =~= old(self).song().extended_started(old(self).state(), ch as int, e));
    }

    /// The first tick of a row for channel `ch`: takes up the event, then
    /// applies the effect's row-start action. Returns the tremolo offset of
    /// the channel's volume.
    fn tick0(&mut self, ch: usize, e: Event) -> (trem: isize)
        requires
            old(self).data_ok(),
            ch < 4,
            e.bounded(),
        ensures
            final(self).data_ok(),
            final(self).same_song(&*old(self)),
            (final(self).state(), trem as int) == old(self).song().first_tick(old(self).state(), ch as int, e),
            final(self).cur_pos == old(self).cur_pos,
            -128 <= trem <= 127,
    {
        proof {
            reveal(Song::first_tick);
        }
        self.take_event(ch, e);
        let ghost s1 = self.state();
        let mut trem: isize = 0;
        if e.fx == 4 || e.fx == 6 {
            self.vibrato_start(ch);
        } else if e.fx == 7 {
            trem = self.tremolo_start(ch);
        } else if e.fx == 12 {
            self.channels[ch].volume = if e.fx_param > 64 { 64 } else { e.fx_param };
            assert(self.state() =~= with_channel(s1, ch as int, Channel {
                volume: (if e.fx_param > 64 { 64 } else { e.fx_param }) as usize,
                ..s1.channels[ch as int]
            }));
        } else if e.fx == 14 {
            self.extended_start(ch, e);
        } else if e.fx == 15 {
            if e.fx_param > 0 {
                if e.fx_param <= 32 {
                    self.speed = e.fx_param;
                } else {
                    self.calc_tick_rate(e.fx_param);
                }
            }
        }
        assert(self.state() =~= old(self).song().first_tick(old(self).state(), ch as int, e).0);
        trem
    }
}

/// The row that a pattern break with parameter `p` goes to: `10 * hi + lo`.
pub open spec fn break_row(p: int) -> int {
    10 * (p / 16) + p % 16
}

impl ModPlayer {
    /// A later tick of a row for channel `ch`, for the effects that act on
    /// the channel alone. Returns the tremolo offset of the channel's volume.
    fn modulate(&mut self, ch: usize, e: Event) -> (trem: isize)
        requires
            old(self).data_ok(),
            ch < 4,
            e.bounded(),
        ensures
            final(self).data_ok(),
            final(self).same_song(&*old(self)),
            final(self).state() == with_channel(
                old(self).state(),
                ch as int,
                modulated(old(self).channels@[ch as int], e, old(self).cur_tick as int),
            ),
            trem as int == modulated_trem(old(self).channels@[ch as int], e),
            -128 <= trem <= 127,
    {
        proof {
            reveal(modulated);
        }
        let mut trem: isize = 0;
        if e.fx == 0 {
            if e.fx_param > 0 {
                let t = self.cur_tick % 3;
                let no: usize = if t == 1 { e.fx_param / 16 } else if t == 2 { e.fx_param % 16 } else { 0 };
                self.channels[ch].set_period(&self.p_table, no as isize, 0);
            }
        } else if e.fx == 1 {
            let amount = self.channels[ch].fx_buf[1];
            self.channels[ch].slide_up(amount);
        } else if e.fx == 2 {
            let amount = self.channels[ch].fx_buf[2];
            self.channels[ch].slide_down(amount);
        } else if e.fx == 3 || e.fx == 5 {
            if e.fx == 5 {
                let param = self.channels[ch].fx_buf[5];
                self.channels[ch].vol_slide(param);
            }
            self.channels[ch].tone_portamento(&self.p_table);
        } else if e.fx == 4 || e.fx == 6 {
            if e.fx == 6 {
                let param = self.channels[ch].fx_buf[6];
                self.channels[ch].vol_slide(param);
            }
            let a = self.channels[ch].vib_ampl;
            if a > 0 {
                let v = self.vib_lookup(self.channels[ch].vib_wave, a, self.channels[ch].vib_pos);
                self.channels[ch].set_period(&self.p_table, 0, v);
            }
            self.channels[ch].vib_pos = (self.channels[ch].vib_pos + self.channels[ch].vib_speed) % 64;
        } else if e.fx == 7 {
            let a = self.channels[ch].trem_ampl;
            if a > 0 {
                trem = self.vib_lookup(self.channels[ch].trem_wave, a, self.channels[ch].trem_pos);
            }
            self.channels[ch].trem_pos = (self.channels[ch].trem_pos + self.channels[ch].trem_speed) % 64;
        } else if e.fx == 10 {
            let param = self.channels[ch].fx_buf[10];
            self.channels[ch].vol_slide(param);
        }
        assert(self.state() =~= with_channel(
            old(self).state(),
            ch as int,
            modulated(old(self).channels@[ch as int], e, old(self).cur_tick as int),
        ));
        trem
    }

    /// A later tick of a row for channel `ch`, for position jump (11),
    /// pattern break (13) and the extended effects loop (6), retrigger (9),
    /// note cut (12) and note delay (13).
    fn flow(&mut self, ch: usize, e: Event)
        requires
            old(self).data_ok(),
            old(self).cur_pos <= 299,
            old(self).cur_tick >= 1,
            ch < 4,
            e.bounded(),
        ensures
            final(self).data_ok(),
            final(self).same_song(&*old(self)),
            final(self).state() == old(self).song().flowed(old(self).state(), ch as int, e),
            final(self).cur_pos <= 255 || final(self).cur_pos <= old(self).cur_pos + 1,
    {
        proof {
            reveal(Song::flowed);
        }
        let last = self.cur_tick == self.speed - 1;
        let ghost s0 = self.state();
        if e.fx == 11 {
            if last {
                self.cur_row = -1;
                self.cur_pos = e.fx_param;
            }
        } else if e.fx == 13 {
            if last {
                self.cur_pos += 1;
                self.cur_row = (10 * (e.fx_param / 16) + e.fx_param % 16) as isize - 1;
            }
        } else if e.fx == 14 {
            let sub = e.fx_param / 16;
            let lo = e.fx_param % 16;
            if sub == 6 {
                if lo == 0 {
                    let r = self.cur_row;
                    self.channels[ch].loop_start = if r < 0 { 0 } else if r > 63 { 63 } else { r as usize };
                } else if last {
                    if self.channels[ch].loop_count < lo {
                        self.cur_row = self.channels[ch].loop_start as isize - 1;
                        self.channels[ch].loop_count += 1;
                    } else {
                        self.channels[ch].loop_count = 0;
                    }
                }
            } else if sub == 9 {
                if self.channels[ch].retrig_count < 16 {
                    self.channels[ch].retrig_count += 1;
                }
                if self.channels[ch].retrig_count == self.channels[ch].fx_buf14[9] {
                    self.channels[ch].retrig_count = 0;
                    assert(self.state() =~= with_channel(s0, ch as int, self.channels@[ch as int]));
                    self.trig_note(ch, &e);
                }
            } else if sub == 12 {
                if self.cur_tick == self.channels[ch].fx_buf14[12] {
                    self.channels[ch].volume = 0;
                }
            } else if sub == 13 {
                if self.cur_tick == self.channels[ch].fx_buf14[13] {
                    if e.note > 0 {
                        self.channels[ch].note = e.note;
                    }
                    assert(self.state() =~= with_channel(s0, ch as int, self.channels@[ch as int]));
                    self.trig_note(ch, &e);
                }
            }
        }
        assert(self.state() =~= old(self).song().flowed(old(self).state(), ch as int, e));
    }
}

impl ModPlayer {
    /// Processes channel `ch` for the current tick and hands its volume
    /// (with the tremolo offset, within `[0, 64]`) and period to its voice.
    fn tick_channel(&mut self, ch: usize)
        requires
            old(self).data_ok(),
            ch < 4,
            old(self).cur_pos <= 255 + ch,
        ensures
            final(self).data_ok(),
            final(self).same_song(&*old(self)),
            final(self).cur_pos <= 256 + ch,
            final(self).state() == old(self).song().channel_ticked(old(self).state(), ch as int),
    {
        proof {
            reveal(Song::channel_ticked);
        }
        let e = self.current_event(ch);
        let trem: isize;
        if self.cur_tick == 0 {
            trem = self.tick0(ch, e);
        } else {
            trem = self.modulate(ch, e);
            self.flow(ch, e);
        }
        let v = crate::clamp(self.channels[ch].volume as isize + trem, 0, 64) as usize;
        self.voices[ch].volume = v;
        self.voices[ch].period = self.channels[ch].period;
        assert(self.state() =~= old(self).song().channel_ticked(old(self).state(), ch as int));
    }

    /// Runs one tick: every channel in order, then the tick, row and position
    /// counters advance.
    pub fn tick(&mut self)
        requires
            old(self).well_formed(),
            old(self).tr_counter == 0,
        ensures
            final(self).well_formed(),
            final(self).same_song(&*old(self)),
            final(self).state() == old(self).song().ticked(old(self).state()),
    {
        let mut ch: usize = 0;
        while ch < 4
            invariant
                ch <= 4,
                self.data_ok(),
                self.same_song(&*old(self)),
                self.cur_pos <= 255 + ch,
                self.state() == old(self).song().channels_ticked(old(self).state(), ch as nat),
            decreases 4 - ch,
        {
            self.tick_channel(ch);
            ch += 1;
        }
        self.advance_counters();
        assert(self.speed * (self.delay + 1) >= 1) by (nonlinear_arith)
            requires
                self.speed >= 1,
        ;
    }

    /// The song and the tables are those of `other`.
    pub open spec fn same_song_data(&self, other: &ModPlayer) -> bool {
        &&& self.name == other.name
        &&& self.samples == other.samples
        &&& self.patterns == other.patterns
        &&& self.pattern_list == other.pattern_list
        &&& self.pattern_count == other.pattern_count
        &&& self.position_count == other.position_count
        &&& self.p_table == other.p_table
        &&& self.vib_table == other.vib_table
    }

    /// The body of the sample that voice `c` plays; empty when it is silent.
    pub open spec fn voice_data(&self, c: int) -> Seq<i8> {
        self.song().voice_data(self.state(), c)
    }

    /// Output side of voice `c`: 0 (left) for channels 0 and 3, 1 (right) for 1 and 2.
    pub open spec fn side(c: int) -> int {
        if c == 0 || c == 3 { 0 } else { 1 }
    }

    /// What the four voices add at element `k` when they render `n` frames
    /// from element `offset` on.
    pub open spec fn mixed(&self, k: int, offset: int, n: int) -> int {
        self.song().mix_of(self.state(), k, offset, n)
    }

    /// Adds `samples` stereo frames of the four voices to `out_buf` from
    /// element `offset` on.
    pub fn paula_render(&mut self, out_buf: &mut Vec<i64>, samples: usize, offset: usize)
        requires
            old(self).data_ok(),
            samples >= 1,
            offset % 2 == 0,
            offset + 2 * samples <= old(out_buf)@.len(),
            forall|k: int| offset <= k < old(out_buf)@.len() ==> #[trigger] old(out_buf)@[k] == 0,
        ensures
            final(self).data_ok(),
            final(self).same_song(&*old(self)),
            final(self).same_counters(&*old(self)),
            final(self).channels == old(self).channels,
            forall|c: int| 0 <= c < 4 ==> #[trigger] final(self).voices@[c] == (if old(self).voices@[c].sample is Some {
                old(self).voices@[c].after(samples as nat)
            } else {
                old(self).voices@[c]
            }),
            final(out_buf)@.len() == old(out_buf)@.len(),
            forall|k: int| 0 <= k < old(out_buf)@.len() ==> #[trigger] final(out_buf)@[k] == old(out_buf)@[k]
                + old(self).mixed(k, offset as int, samples as int),
    {
        let ghost b0 = out_buf@;
        let ghost before = *self;
        let blen = out_buf.len();
        let mut ch: usize = 0;
        while ch < 4
            invariant
                ch <= 4,
                self.data_ok(),
                self.same_song(&before),
                self.same_counters(&before),
                self.channels == before.channels,
                before.data_ok(),
                samples >= 1,
                offset + 2 * samples <= b0.len(),
                out_buf@.len() == b0.len(),
                forall|c: int| ch <= c < 4 ==> #[trigger] self.voices@[c] == before.voices@[c],
                forall|c: int| 0 <= c < ch ==> #[trigger] self.voices@[c] == (if before.voices@[c].sample is Some {
                    before.voices@[c].after(samples as nat)
                } else {
                    before.voices@[c]
                }),
                forall|k: int| offset <= k < b0.len() ==> #[trigger] b0[k] == 0,
                forall|k: int| offset <= k < b0.len() ==> -(ch as int) * FRAME_MAX <= #[trigger] out_buf@[k] <= (ch as int) * FRAME_MAX,
                forall|k: int| 0 <= k < b0.len() ==> #[trigger] out_buf@[k] == b0[k]
                    + (if ch > 0 { contribution(before.voices@[0], before.voice_data(0), k, offset + Self::side(0), samples as int) } else { 0 })
                    + (if ch > 1 { contribution(before.voices@[1], before.voice_data(1), k, offset + Self::side(1), samples as int) } else { 0 })
                    + (if ch > 2 { contribution(before.voices@[2], before.voice_data(2), k, offset + Self::side(2), samples as int) } else { 0 })
                    + (if ch > 3 { contribution(before.voices@[3], before.voice_data(3), k, offset + Self::side(3), samples as int) } else { 0 }),
                blen == b0.len(),
            decreases 4 - ch,
        {
            match self.voices[ch].sample {
                None => {},
                Some(index) => {
                    let start = if ch == 0 || ch == 3 { offset } else { offset + 1 };
                    self.voices[ch].render(&self.samples[index].data, out_buf, samples, start);
                },
            }
            ch += 1;
        }
    }

    /// Renders `buf.len() / 2` interleaved stereo frames: the buffer is
    /// cleared, then the voices are mixed in, with a tick run each time the
    /// frame budget of the current tick is spent.
    pub fn render(&mut self, buf: &mut Vec<i64>)
        requires
            old(self).well_formed(),
        ensures
            final(self).well_formed(),
            final(self).same_song_data(&*old(self)),
            final(buf)@.len() == old(buf)@.len(),
            forall|k: int| 2 * (old(buf)@.len() / 2) <= k < old(buf)@.len() ==> #[trigger] final(buf)@[k] == 0,
            old(buf)@.len() / 2 > old(self).tr_counter ==> final(self).tr_counter < final(self).tick_rate,
            final(self).state() == old(self).song().driven(old(self).state(), old(self).tr_counter as int, 0, (old(buf)@.len() / 2) as int).0,
            final(self).tr_counter as int == old(self).song().driven(old(self).state(), old(self).tr_counter as int, 0, (old(buf)@.len() / 2) as int).1,
            forall|k: int| 0 <= k < old(buf)@.len() ==> #[trigger] final(buf)@[k] == old(self).song().driven_out(
                old(self).state(),
                old(self).tr_counter as int,
                (old(buf)@.len() / 2) as int,
                0,
                k,
            ),
            old(buf)@.len() / 2 <= old(self).tr_counter ==> {
                &&& final(self).tr_counter == old(self).tr_counter - old(buf)@.len() / 2
                &&& final(self).channels == old(self).channels
                &&& final(self).same_counters(&*old(self))
                &&& forall|k: int| 0 <= k < old(buf)@.len() ==> #[trigger] final(buf)@[k]
                    == old(self).mixed(k, 0, (old(buf)@.len() / 2) as int)
            },
    {
        let n = buf.len();
        let mut i: usize = 0;
        while i < n
            invariant
                n == buf@.len(),
                i <= n,
                forall|k: int| 0 <= k < i ==> #[trigger] buf@[k] == 0,
            decreases n - i,
        {
            buf.set(i, 0);
            i += 1;
        }
        let mut len = n / 2;
        let mut out_pointer: usize = 0;
        let ghost no_tick = n / 2 <= old(self).tr_counter;
        let ghost frames = n / 2;
        let ghost mut since: int = 0;
        while len > 0
            invariant
                n == buf@.len(),
                frames == n / 2,
                self.well_formed(),
                self.same_song_data(&*old(self)),
                forall|k: int| 2 * frames <= k < n ==> #[trigger] buf@[k] == 0,
                no_tick == (frames <= old(self).tr_counter),
                old(self).song().driven(old(self).state(), old(self).tr_counter as int, 0, frames as int).0
                    == old(self).song().driven(self.state(), self.tr_counter as int, since, len as int).0,
                old(self).song().driven(old(self).state(), old(self).tr_counter as int, 0, frames as int).1
                    == old(self).song().driven(self.state(), self.tr_counter as int, since, len as int).1,
                self.song() == old(self).song(),
                forall|k: int| 0 <= k < out_pointer ==> #[trigger] buf@[k] == old(self).song().driven_out(
                    old(self).state(), old(self).tr_counter as int, frames as int, 0, k),
                forall|k: int| out_pointer <= k < n ==> #[trigger] old(self).song().driven_out(
                    old(self).state(), old(self).tr_counter as int, frames as int, 0, k)
                    == old(self).song().driven_out(self.state(), self.tr_counter as int, len as int, out_pointer as int, k),
                !no_tick && len < frames ==> self.tr_counter < self.tick_rate || len > 0,
                no_tick && len == frames ==> *self == *old(self),
                no_tick && len < frames ==> {
                    &&& len == 0
                    &&& self.tr_counter == old(self).tr_counter - frames
                    &&& self.channels == old(self).channels
                    &&& self.same_counters(&*old(self))
                    &&& forall|k: int| 0 <= k < n ==> #[trigger] buf@[k] == old(self).mixed(k, 0, frames as int)
                },
                out_pointer + 2 * len == 2 * (n / 2),
                out_pointer % 2 == 0,
                forall|k: int| out_pointer <= k < n ==> #[trigger] buf@[k] == 0,
            decreases len, (if self.tr_counter == 0 { 1int } else { 0 }),
        {
            let todo = if len < self.tr_counter { len } else { self.tr_counter };
            let ghost s0 = self.state();
            if todo > 0 {
                self.paula_render(buf, todo, out_pointer);
                assert(self.voices@ =~= voices_rendered(s0, todo as nat).voices);
                assert(self.state() =~= voices_rendered(s0, todo as nat));
                out_pointer += 2 * todo;
                len -= todo;
                self.tr_counter -= todo;
                proof {
                    since = since + todo;
                }
            } else {
                self.tick();
                self.tr_counter = self.tick_rate;
                proof {
                    since = 0;
                }
            }
        }
    }
}

/// Why a module cannot be loaded.
#[derive(Clone, Copy, Debug, PartialEq, Eq, Structural)]
pub enum LoadError {
    /// The file is shorter than the 1084 bytes of a header.
    InvalidHeader,
    /// The pattern data runs past the end of the file.
    TruncatedPattern,
    /// A sample body runs past the end of the file.
    TruncatedSample,
}

/// Offset of the format tag.
pub const TAG_OFFSET: usize = 1080;

/// Size of the header of a 31-sample module, tag included.
pub const HEADER_BYTES: usize = 1084;

/// Whether the four bytes at 1080 are one of the tags "M.K.", "M!K!", "4TLF".
pub open spec fn has_tag(b: Seq<u8>) -> bool {
    let t = b.subrange(1080, 1084);
    t == seq![0x4Du8, 0x2Eu8, 0x4Bu8, 0x2Eu8] || t == seq![0x4Du8, 0x21u8, 0x4Bu8, 0x21u8]
        || t == seq![0x34u8, 0x54u8, 0x4Cu8, 0x46u8]
}

/// Number of sample headers: 31 with a tag, else 15.
pub open spec fn sample_count_of(b: Seq<u8>) -> int {
    if has_tag(b) { 31 } else { 15 }
}

/// Offset of the position count, which the order list follows after one byte.
pub open spec fn order_start(b: Seq<u8>) -> int {
    20 + 30 * sample_count_of(b)
}

/// Offset of sample header `i`.
pub open spec fn header_start(i: int) -> int {
    20 + 30 * i
}

/// The largest of the first `n` entries of the order list, plus one; at least 1.
pub open spec fn patterns_needed(b: Seq<u8>, n: int) -> int
    decreases n,
{
    if n <= 0 {
        1
    } else {
        let rest = patterns_needed(b, n - 1);
        let e = b[order_start(b) + 2 + n - 1] as int + 1;
        if e > rest { e } else { rest }
    }
}

/// Number of patterns: one past the largest pattern index in the order list.
pub open spec fn pattern_count_of(b: Seq<u8>) -> int {
    patterns_needed(b, 128)
}

/// Offset of the first pattern block.
pub open spec fn pattern_start(b: Seq<u8>) -> int {
    order_start(b) + 130 + if has_tag(b) { 4int } else { 0 }
}

/// Offset just past the pattern blocks.
pub open spec fn patterns_end(b: Seq<u8>) -> int {
    pattern_start(b) + 1024 * pattern_count_of(b)
}

/// Total bytes of the bodies of the first `n` samples.
pub open spec fn bodies_len(b: Seq<u8>, n: int) -> int
    decreases n,
{
    if n <= 0 { 0 } else { bodies_len(b, n - 1) + 2 * be16(b, header_start(n - 1) + 22) }
}

/// Offset of the body of sample `i`.
pub open spec fn body_start(b: Seq<u8>, i: int) -> int {
    patterns_end(b) + bodies_len(b, i)
}

impl ModPlayer {
    /// The player is the freshly loaded module `b`: its samples, patterns and
    /// order list are those of the file, the channels and voices silent, the
    /// song at its start with speed 6 at 125 bpm.
    pub open spec fn loaded_from(&self, b: Seq<u8>) -> bool {
        &&& self.name@ == lossy_utf8(b.subrange(0, 20))
        &&& self.samples@.len() == sample_count_of(b)
        &&& forall|i: int| 0 <= i < self.samples@.len() ==> (#[trigger] self.samples@[i]).has_header(
            b.subrange(header_start(i), header_start(i) + 30),
        )
        &&& forall|i: int, k: int| 0 <= i < self.samples@.len() && 0 <= k < self.samples@[i].data@.len()
            ==> #[trigger] self.samples@[i].data@[k] == b[body_start(b, i) + k] as i8
        &&& forall|i: int| 0 <= i < self.samples@.len() ==> (#[trigger] self.samples@[i]).data@.len()
            == 2 * self.samples@[i].length
        &&& self.position_count == b[order_start(b)]
        &&& forall|i: int| 0 <= i < 128 ==> #[trigger] self.pattern_list@[i] == b[order_start(b) + 2 + i]
        &&& self.pattern_count == pattern_count_of(b)
        &&& forall|i: int| 0 <= i < self.pattern_count ==> (#[trigger] self.patterns@[i]).decodes(
            b.subrange(pattern_start(b) + 1024 * i, pattern_start(b) + 1024 * i + 1024),
        )
        &&& self.speed == 6
        &&& self.tick_rate == 960
        &&& self.tr_counter == 0
        &&& self.cur_tick == 0
        &&& self.cur_row == 0
        &&& self.cur_pos == 0
        &&& self.delay == 0
        &&& self.channels@.len() == 4
        &&& forall|c: int| 0 <= c < 4 ==> (#[trigger] self.channels@[c]).is_cleared()
        &&& self.voices@.len() == 4
        &&& forall|c: int| 0 <= c < 4 ==> (#[trigger] self.voices@[c]).sample is None
        &&& forall|c: int| 0 <= c < 4 ==> (#[trigger] self.voices@[c]).pos == 0
        &&& forall|c: int| 0 <= c < 4 ==> (#[trigger] self.voices@[c]).period == 65535
        &&& forall|c: int| 0 <= c < 4 ==> (#[trigger] self.voices@[c]).volume == 0
    }
}

/// Whether the four bytes at 1080 are a format tag.
fn detect_tag(b: &[u8]) -> (r: bool)
    requires
        b@.len() >= 1084,
    ensures
        r == has_tag(b@),
{
    let t0 = b[1080];
    let t1 = b[1081];
    let t2 = b[1082];
    let t3 = b[1083];
    let r = (t0 == 0x4D && t1 == 0x2E && t2 == 0x4B && t3 == 0x2E) || (t0 == 0x4D && t1 == 0x21 && t2 == 0x4B
        && t3 == 0x21) || (t0 == 0x34 && t1 == 0x54 && t2 == 0x4C && t3 == 0x46);
    let ghost t = b@.subrange(1080, 1084);
    assert(t =~= seq![t0, t1, t2, t3]);
    r
}

/// Number of patterns that the order list refers to.
fn count_patterns(b: &[u8], tagged: bool) -> (r: usize)
    requires
        b@.len() >= 1084,
        tagged == has_tag(b@),
    ensures
        r as int == pattern_count_of(b@),
        1 <= r <= 256,
{
    let order: usize = if tagged { 20 + 30 * 31 } else { 20 + 30 * 15 };
    let mut count: usize = 1;
    let mut i: usize = 0;
    while i < 128
        invariant
            b@.len() >= 1084,
            order as int == order_start(b@),
            order + 130 <= 1084,
            i <= 128,
            count as int == patterns_needed(b@, i as int),
            1 <= count <= 256,
        decreases 128 - i,
    {
        let e = b[order + 2 + i] as usize + 1;
        if e > count {
            count = e;
        }
        i += 1;
    }
    count
}

/// Every entry among the first `n` of the order list is below `patterns_needed(b, n)`.
pub proof fn lemma_patterns_needed(b: Seq<u8>, n: int)
    requires
        0 <= n,
    ensures
        forall|i: int| 0 <= i < n ==> #[trigger] b[order_start(b) + 2 + i] < patterns_needed(b, n),
        patterns_needed(b, n) >= 1,
    decreases n,
{
    if n > 0 {
        lemma_patterns_needed(b, n - 1);
    }
}

/// The bodies of more samples take no fewer bytes.
pub proof fn lemma_bodies_monotone(b: Seq<u8>, i: int, j: int)
    requires
        0 <= i <= j,
    ensures
        bodies_len(b, i) <= bodies_len(b, j),
    decreases j - i,
{
    if i < j {
        lemma_bodies_monotone(b, i, j - 1);
    }
}

impl ModPlayer {
    /// Loads a module from its bytes and sets the song to its start.
    pub fn load(module: Vec<u8>) -> (r: Result<ModPlayer, LoadError>)
        ensures
            module@.len() < 1084 <==> r == Err::<ModPlayer, LoadError>(LoadError::InvalidHeader),
            module@.len() >= 1084 && patterns_end(module@) > module@.len() ==> r == Err::<ModPlayer, LoadError>(
                LoadError::TruncatedPattern,
            ),
            module@.len() >= 1084 && patterns_end(module@) <= module@.len() && body_start(
                module@,
                sample_count_of(module@),
            ) > module@.len() ==> r == Err::<ModPlayer, LoadError>(LoadError::TruncatedSample),
            module@.len() >= 1084 && body_start(module@, sample_count_of(module@)) <= module@.len() ==> {
                &&& r is Ok
                &&& r->Ok_0.well_formed()
                &&& r->Ok_0.loaded_from(module@)
            },
    {
        let b = module.as_slice();
        let len = b.len();
        if len < HEADER_BYTES {
            return Err(LoadError::InvalidHeader);
        }
        let tagged = detect_tag(b);
        let sample_count: usize = if tagged { 31 } else { 15 };
        let order: usize = 20 + 30 * sample_count;
        let pattern_count = count_patterns(b, tagged);
        let first_pattern: usize = order + 130 + if tagged { 4 } else { 0 };
        proof {
            lemma_bodies_monotone(b@, 0, sample_count as int);
        }
        if first_pattern + pattern_count * PATTERN_BYTES > len {
            return Err(LoadError::TruncatedPattern);
        }
        // sample headers
        let mut samples: Vec<Sample> = Vec::new();
        let mut i: usize = 0;
        while i < sample_count
            invariant
                b@ == module@,
                len == b@.len(),
                len >= 1084,
                sample_count as int == sample_count_of(b@),
                i <= sample_count,
                samples@.len() == i,
                forall|j: int| 0 <= j < i ==> (#[trigger] samples@[j]).has_header(
                    b@.subrange(header_start(j), header_start(j) + 30),
                ),
                forall|j: int| 0 <= j < i ==> (#[trigger] samples@[j]).data@.len() == 0,
                forall|j: int| 0 <= j < i ==> (#[trigger] samples@[j]).well_formed(),
            decreases sample_count - i,
        {
            let header = copy_bytes(b, 20 + 30 * i, 30);
            samples.push(Sample::load(header.as_slice()));
            i += 1;
        }
        // patterns
        let mut patterns: Vec<Pattern> = Vec::new();
        let mut pi: usize = 0;
        while pi < pattern_count
            invariant
                b@ == module@,
                len == b@.len(),
                first_pattern as int == pattern_start(b@),
                pattern_count as int == pattern_count_of(b@),
                first_pattern + pattern_count * 1024 <= len,
                pi <= pattern_count,
                patterns@.len() == pi,
                forall|j: int| 0 <= j < pi ==> (#[trigger] patterns@[j]).decodes(
                    b@.subrange(first_pattern + 1024 * j, first_pattern + 1024 * j + 1024),
                ),
                forall|j: int| 0 <= j < pi ==> (#[trigger] patterns@[j]).events_bounded(),
            decreases pattern_count - pi,
        {
            assert(first_pattern + pi * 1024 + 1024 <= len) by (nonlinear_arith)
                requires
                    pi < pattern_count,
                    first_pattern + pattern_count * 1024 <= len,
            ;
            let block = copy_bytes(b, first_pattern + pi * PATTERN_BYTES, PATTERN_BYTES);
            patterns.push(Pattern::load(block.as_slice()));
            pi += 1;
        }
        // order list
        let mut pattern_list: Vec<usize> = Vec::new();
        let mut k: usize = 0;
        while k < 128
            invariant
                b@ == module@,
                len == b@.len(),
                len >= 1084,
                order as int == order_start(b@),
                order + 130 <= 1084,
                k <= 128,
                pattern_list@.len() == k,
                pattern_count as int == pattern_count_of(b@),
                forall|j: int| 0 <= j < k ==> #[trigger] pattern_list@[j] == b@[order + 2 + j],
            decreases 128 - k,
        {
            pattern_list.push(b[order + 2 + k] as usize);
            k += 1;
        }
        let position_count = b[order] as usize;
        // sample bodies
        let mut offset: usize = first_pattern + pattern_count * PATTERN_BYTES;
        let mut si: usize = 0;
        while si < sample_count
            invariant
                b@ == module@,
                len == b@.len(),
                len >= 1084,
                patterns_end(b@) <= len,
                sample_count as int == sample_count_of(b@),
                samples@.len() == sample_count,
                si <= sample_count,
                offset as int == body_start(b@, si as int),
                offset <= len,
                forall|j: int| 0 <= j < sample_count ==> (#[trigger] samples@[j]).has_header(
                    b@.subrange(header_start(j), header_start(j) + 30),
                ),
                forall|j: int| 0 <= j < sample_count ==> (#[trigger] samples@[j]).well_formed(),
                forall|j: int| si <= j < sample_count ==> (#[trigger] samples@[j]).data@.len() == 0,
                forall|j: int| 0 <= j < si ==> (#[trigger] samples@[j]).data@.len() == 2 * samples@[j].length,
                forall|j: int, q: int| 0 <= j < si && 0 <= q < samples@[j].data@.len()
                    ==> #[trigger] samples@[j].data@[q] == b@[body_start(b@, j) + q] as i8,
            decreases sample_count - si,
        {
            let n = 2 * samples[si].length;
            if n > len - offset {
                proof {
                    lemma_bodies_monotone(b@, si as int + 1, sample_count as int);
                }
                return Err(LoadError::TruncatedSample);
            }
            let pcm = copy_bytes(b, offset, n);
            samples[si].load_data(pcm.as_slice());
            offset += n;
            si += 1;
        }
        let name_bytes = copy_bytes(b, 0, 20);
        let name = text_of(name_bytes.as_slice());
        let mut channels: Vec<Channel> = Vec::new();
        let mut voices: Vec<Voice> = Vec::new();
        let mut c: usize = 0;
        while c < 4
            invariant
                c <= 4,
                channels@.len() == c,
                voices@.len() == c,
                forall|j: int| 0 <= j < c ==> (#[trigger] channels@[j]).well_formed(),
                forall|j: int| 0 <= j < c ==> (#[trigger] voices@[j]).well_formed(),
                forall|j: int| 0 <= j < c ==> (#[trigger] voices@[j]).sample is None,
                forall|j: int| 0 <= j < c ==> (#[trigger] channels@[j]).is_cleared(),
                forall|j: int| 0 <= j < c ==> (#[trigger] voices@[j]).pos == 0,
                forall|j: int| 0 <= j < c ==> (#[trigger] voices@[j]).period == 65535,
                forall|j: int| 0 <= j < c ==> (#[trigger] voices@[j]).volume == 0,
            decreases 4 - c,
        {
            channels.push(Channel::new());
            voices.push(Voice::new());
            c += 1;
        }
        let mut player = ModPlayer {
            name,
            samples,
            patterns,
            pattern_list,
            pattern_count,
            position_count,
            p_table: build_period_table(),
            vib_table: build_vib_table(),
            speed: 6,
            tick_rate: 0,
            tr_counter: 0,
            cur_tick: 0,
            cur_row: 0,
            cur_pos: 0,
            delay: 0,
            channels,
            voices,
        };
        player.calc_tick_rate(125);
        proof {
            lemma_patterns_needed(b@, 128);
            assert(forall|i: int| 0 <= i < 128 ==> #[trigger] player.pattern_list@[i] == b@[order_start(b@) + 2 + i]);
        }
        Ok(player)
    }
}

/// Between ticks every channel volume and every voice volume lies in `[0, 64]`.
pub proof fn lemma_volumes_in_range(p: &ModPlayer)
    requires
        p.well_formed(),
    ensures
        forall|c: int| 0 <= c < 4 ==> #[trigger] p.channels@[c].volume <= 64,
        forall|c: int| 0 <= c < 4 ==> #[trigger] p.voices@[c].volume <= 64,
{
    assert forall|c: int| 0 <= c < 4 implies #[trigger] p.channels@[c].volume <= 64 by {
        assert(p.channels@[c].well_formed());
    }
    assert forall|c: int| 0 <= c < 4 implies #[trigger] p.voices@[c].volume <= 64 by {
        assert(p.voices@[c].well_formed());
    }
}

/// Between ticks the tick lies in `[0, speed * (delay + 1))`, the row in
/// `[0, 64)` and the position in `[0, position_count]`; the frames left to
/// the next tick never exceed the tick rate.
pub proof fn lemma_counters_in_range(p: &ModPlayer)
    requires
        p.well_formed(),
    ensures
        0 <= p.cur_tick < p.speed * (p.delay + 1),
        0 <= p.cur_row < 64,
        0 <= p.cur_pos <= p.position_count,
        p.tr_counter <= p.tick_rate,
{
}

} // verus!
