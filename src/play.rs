//! The per-tick interpreter as spec functions over the player's changing state.
use vstd::prelude::*;
use vstd::array::spec_array_update;
use crate::channel::Channel;
use crate::pattern::{Event, Pattern};
use crate::sample::Sample;
use crate::player::{ModPlayer, empty_event, is_note_delay, triggered_voice, tick_rate_of, break_row};
use crate::tables::vib_value;
use crate::voice::{Voice, contribution};
use crate::clamp_spec;

verus! {

/// What a tick may change: channels, voices, speed, tempo and position.
#[verifier::ext_equal]
pub struct PlayState {
    pub channels: Seq<Channel>,
    pub voices: Seq<Voice>,
    pub speed: usize,
    pub tick_rate: usize,
    pub cur_tick: usize,
    pub cur_row: isize,
    pub cur_pos: usize,
    pub delay: usize,
}

/// `s` with channel `ch` replaced by `c`.
pub open spec fn with_channel(s: PlayState, ch: int, c: Channel) -> PlayState {
    PlayState { channels: s.channels.update(ch, c), ..s }
}

/// `s` with voice `ch` replaced by `v`.
pub open spec fn with_voice(s: PlayState, ch: int, v: Voice) -> PlayState {
    PlayState { voices: s.voices.update(ch, v), ..s }
}

/// The tick, row, position and delay after the end of a tick in state `s`.
pub open spec fn advanced(s: PlayState, position_count: int) -> PlayState {
    let t = s.cur_tick + 1;
    let rolled = t >= s.speed * (s.delay + 1);
    let row0 = if rolled { s.cur_row + 1 } else { s.cur_row as int };
    let pos0 = if row0 >= 64 { s.cur_pos + 1 } else { s.cur_pos as int };
    PlayState {
        cur_tick: (if rolled { 0 } else { t }) as usize,
        delay: (if rolled { 0 } else { s.delay as int }) as usize,
        cur_row: (if row0 >= 64 || row0 < 0 { 0 } else { row0 }) as isize,
        cur_pos: (if pos0 > position_count || pos0 >= 128 { 0 } else { pos0 }) as usize,
        ..s
    }
}

/// The channel after taking up sample `smp` as the event's sample `index`.
pub open spec fn adopt_sample(c: Channel, index: usize, finetune: i8, volume: u8) -> Channel {
    Channel {
        sample: index,
        fine_tune: finetune as isize,
        volume: (if volume > 64 { 64 } else { volume }) as usize,
        ..c
    }
}

/// The channel after a vibrato's row start.
pub open spec fn vibrato_started(c: Channel) -> Channel {
    let mem = c.fx_buf@[4];
    let c1 = if mem % 16 > 0 { Channel { vib_ampl: mem % 16, ..c } } else { c };
    let c2 = if mem / 16 > 0 { Channel { vib_speed: mem / 16, ..c1 } } else { c1 };
    if c2.vib_ampl > 0 {
        c2.with_period(0, vib_value(c2.vib_wave as int, c2.vib_ampl - 1, c2.vib_pos as int))
    } else {
        c2
    }
}

/// The channel after a tremolo's row start.
pub open spec fn tremolo_started(c: Channel) -> Channel {
    let mem = c.fx_buf@[7];
    let c1 = if mem % 16 > 0 { Channel { trem_ampl: mem % 16, ..c } } else { c };
    if mem / 16 > 0 { Channel { trem_speed: mem / 16, ..c1 } } else { c1 }
}

/// The tremolo offset of the volume at the channel's current phase; 0
/// while the amplitude is 0.
pub open spec fn trem_value(c: Channel) -> int {
    if c.trem_ampl > 0 { vib_value(c.trem_wave as int, c.trem_ampl - 1, c.trem_pos as int) } else { 0 }
}

/// A waveform choice from an extended-effect value: 3 counts as 0.
pub open spec fn wave_of(m: int) -> usize {
    (if m % 4 == 3 { 0 } else { m % 4 }) as usize
}

/// The retrigger flag of an extended-effect value: its bit of weight 4.
pub open spec fn retr_of(m: int) -> usize {
    ((m / 4) % 2 * 4) as usize
}

/// The channel after one later tick of an effect that acts on the channel
/// alone (arpeggio, slides, portamento, vibrato, tremolo, volume slide).
#[verifier::opaque]
pub open spec fn modulated(c: Channel, e: Event, cur_tick: int) -> Channel {
    if e.fx == 0 {
        if e.fx_param > 0 {
            let t = cur_tick % 3;
            let no = if t == 1 { e.fx_param / 16 } else if t == 2 { e.fx_param % 16 } else { 0 };
            c.with_period(no as int, 0)
        } else {
            c
        }
    } else if e.fx == 1 {
        c.slid_up(c.fx_buf@[1] as int)
    } else if e.fx == 2 {
        c.slid_down(c.fx_buf@[2] as int)
    } else if e.fx == 3 || e.fx == 5 {
        let c1 = if e.fx == 5 { c.vol_slid(c.fx_buf@[5] as int) } else { c };
        c1.porta_stepped()
    } else if e.fx == 4 || e.fx == 6 {
        let c1 = if e.fx == 6 { c.vol_slid(c.fx_buf@[6] as int) } else { c };
        let c2 = if c1.vib_ampl > 0 {
            c1.with_period(0, vib_value(c1.vib_wave as int, c1.vib_ampl - 1, c1.vib_pos as int))
        } else {
            c1
        };
        Channel { vib_pos: ((c2.vib_pos + c2.vib_speed) % 64) as usize, ..c2 }
    } else if e.fx == 7 {
        Channel { trem_pos: ((c.trem_pos + c.trem_speed) % 64) as usize, ..c }
    } else if e.fx == 10 {
        c.vol_slid(c.fx_buf@[10] as int)
    } else {
        c
    }
}

/// The tremolo offset that a later tick of event `e` gives the volume.
pub open spec fn modulated_trem(c: Channel, e: Event) -> int {
    if e.fx == 7 { trem_value(c) } else { 0 }
}

/// What a tick reads but never changes: samples, patterns, order list and
/// song length.
pub struct Song {
    pub samples: Seq<Sample>,
    pub patterns: Seq<Pattern>,
    pub pattern_list: Seq<usize>,
    pub position_count: usize,
}

impl ModPlayer {
    /// The song data of the player.
    pub open spec fn song(&self) -> Song {
        Song {
            samples: self.samples@,
            patterns: self.patterns@,
            pattern_list: self.pattern_list@,
            position_count: self.position_count,
        }
    }

    /// The play state of the player.
    pub open spec fn state(&self) -> PlayState {
        PlayState {
            channels: self.channels@,
            voices: self.voices@,
            speed: self.speed,
            tick_rate: self.tick_rate,
            cur_tick: self.cur_tick,
            cur_row: self.cur_row,
            cur_pos: self.cur_pos,
            delay: self.delay,
        }
    }
}

impl Song {

    /// The event of channel `ch` at the position and row of `s`; the empty
    /// event where these lie outside the song.
    pub open spec fn event_in(&self, s: PlayState, ch: int) -> Event {
        if 0 <= s.cur_row < 64 && s.cur_pos < 128 {
            self.patterns[self.pattern_list[s.cur_pos as int] as int].event(s.cur_row as int, ch)
        } else {
            empty_event()
        }
    }

    /// A note trigger on channel `ch` for event `e` (see `trig_note`).
    #[verifier::opaque]
    pub open spec fn triggered(&self, s: PlayState, ch: int, e: Event) -> PlayState {
        if e.fx == 3 || e.fx == 5 {
            s
        } else {
            let c = s.channels[ch];
            let offset = if e.fx == 9 { c.fx_buf@[9] * 256 } else { 0 };
            let v = if 1 <= c.sample <= self.samples.len() {
                triggered_voice(s.voices[ch], self.samples[c.sample - 1], c.sample - 1, offset)
            } else {
                s.voices[ch]
            };
            with_voice(with_channel(s, ch, c.retriggered()), ch, v)
        }
    }

    /// Taking up event `e` on channel `ch` (see `take_event`).
    #[verifier::opaque]
    pub open spec fn taken(&self, s: PlayState, ch: int, e: Event) -> PlayState {
        let c0 = s.channels[ch];
        let c1 = if 0 < e.sample <= self.samples.len() {
            adopt_sample(
                c0,
                e.sample,
                self.samples[e.sample - 1].finetune,
                self.samples[e.sample - 1].volume,
            )
        } else {
            c0
        };
        let c2 = if e.fx_param > 0 {
            Channel { fx_buf: spec_array_update(c1.fx_buf, e.fx as int, e.fx_param), ..c1 }
        } else {
            c1
        };
        if e.note > 0 && !is_note_delay(e) {
            self.triggered(with_channel(s, ch, Channel { note: e.note, ..c2 }), ch, e)
        } else {
            with_channel(s, ch, c2)
        }
    }

    /// The row start of extended effect `e` on channel `ch`.
    #[verifier::opaque]
    pub open spec fn extended_started(&self, s: PlayState, ch: int, e: Event) -> PlayState {
        let sub = e.fx_param / 16;
        let lo = e.fx_param % 16;
        let c0 = s.channels[ch];
        let c = if lo > 0 { Channel { fx_buf14: spec_array_update(c0.fx_buf14, sub as int, lo), ..c0 } } else { c0 };
        let m = c.fx_buf14@[sub as int] as int;
        if sub == 1 {
            with_channel(s, ch, c.slid_up(m))
        } else if sub == 2 {
            with_channel(s, ch, c.slid_down(m))
        } else if sub == 4 {
            with_channel(s, ch, Channel { vib_wave: wave_of(m), vib_retr: retr_of(m), ..c })
        } else if sub == 5 {
            with_channel(s, ch, Channel { fine_tune: (if m >= 8 { m - 16 } else { m }) as isize, ..c })
        } else if sub == 7 {
            with_channel(s, ch, Channel { trem_wave: wave_of(m), trem_retr: retr_of(m), ..c })
        } else if sub == 9 {
            if m > 0 && e.note == 0 {
                let s2 = self.triggered(with_channel(s, ch, c), ch, e);
                with_channel(s2, ch, Channel { retrig_count: 0, ..s2.channels[ch] })
            } else {
                with_channel(s, ch, c)
            }
        } else if sub == 10 {
            with_channel(s, ch, Channel { volume: (if c.volume + m > 64 { 64 } else { c.volume + m }) as usize, ..c })
        } else if sub == 11 {
            with_channel(s, ch, Channel { volume: (if c.volume < m { 0 } else { c.volume - m }) as usize, ..c })
        } else if sub == 14 {
            PlayState { delay: m as usize, ..with_channel(s, ch, c) }
        } else {
            with_channel(s, ch, c)
        }
    }

    /// The first tick of a row on channel `ch` with event `e`: the new state
    /// and the tremolo offset of the channel's volume.
    #[verifier::opaque]
    pub open spec fn first_tick(&self, s: PlayState, ch: int, e: Event) -> (PlayState, int) {
        let s1 = self.taken(s, ch, e);
        let c = s1.channels[ch];
        if e.fx == 4 || e.fx == 6 {
            (with_channel(s1, ch, vibrato_started(c)), 0)
        } else if e.fx == 7 {
            (with_channel(s1, ch, tremolo_started(c)), trem_value(tremolo_started(c)))
        } else if e.fx == 12 {
            (with_channel(s1, ch, Channel { volume: (if e.fx_param > 64 { 64 } else { e.fx_param }) as usize, ..c }), 0)
        } else if e.fx == 14 {
            (self.extended_started(s1, ch, e), 0)
        } else if e.fx == 15 && e.fx_param > 0 {
            if e.fx_param <= 32 {
                (PlayState { speed: e.fx_param, ..s1 }, 0)
            } else {
                (PlayState { tick_rate: tick_rate_of(e.fx_param as int) as usize, ..s1 }, 0)
            }
        } else {
            (s1, 0)
        }
    }

    /// A later tick of a row on channel `ch` for position jump, pattern
    /// break, pattern loop, retrigger, note cut and note delay.
    #[verifier::opaque]
    pub open spec fn flowed(&self, s: PlayState, ch: int, e: Event) -> PlayState {
        let last = s.cur_tick == s.speed - 1;
        let c = s.channels[ch];
        let sub = e.fx_param / 16;
        let lo = e.fx_param % 16;
        if e.fx == 11 {
            if last { PlayState { cur_row: -1isize, cur_pos: e.fx_param, ..s } } else { s }
        } else if e.fx == 13 {
            if last {
                PlayState { cur_pos: (s.cur_pos + 1) as usize, cur_row: (break_row(e.fx_param as int) - 1) as isize, ..s }
            } else {
                s
            }
        } else if e.fx == 14 {
            if sub == 6 {
                if lo == 0 {
                    let r = s.cur_row;
                    with_channel(s, ch, Channel { loop_start: (if r < 0 { 0 } else if r > 63 { 63 } else { r as int }) as usize, ..c })
                } else if last {
                    if c.loop_count < lo {
                        PlayState {
                            cur_row: (c.loop_start - 1) as isize,
                            ..with_channel(s, ch, Channel { loop_count: (c.loop_count + 1) as usize, ..c })
                        }
                    } else {
                        with_channel(s, ch, Channel { loop_count: 0, ..c })
                    }
                } else {
                    s
                }
            } else if sub == 9 {
                let c1 = Channel { retrig_count: (if c.retrig_count < 16 { c.retrig_count + 1 } else { c.retrig_count as int }) as usize, ..c };
                if c1.retrig_count == c1.fx_buf14@[9] {
                    self.triggered(with_channel(s, ch, Channel { retrig_count: 0, ..c1 }), ch, e)
                } else {
                    with_channel(s, ch, c1)
                }
            } else if sub == 12 {
                if s.cur_tick == c.fx_buf14@[12] { with_channel(s, ch, Channel { volume: 0, ..c }) } else { s }
            } else if sub == 13 {
                if s.cur_tick == c.fx_buf14@[13] {
                    let c1 = if e.note > 0 { Channel { note: e.note, ..c } } else { c };
                    self.triggered(with_channel(s, ch, c1), ch, e)
                } else {
                    s
                }
            } else {
                s
            }
        } else {
            s
        }
    }

    /// One tick of channel `ch`: the effects of its event, then its voice
    /// takes the channel's period and its volume plus the tremolo offset,
    /// within `[0, 64]`.
    #[verifier::opaque]
    pub open spec fn channel_ticked(&self, s: PlayState, ch: int) -> PlayState {
        let e = self.event_in(s, ch);
        let r = if s.cur_tick == 0 {
            self.first_tick(s, ch, e)
        } else {
            let c = s.channels[ch];
            (self.flowed(with_channel(s, ch, modulated(c, e, s.cur_tick as int)), ch, e), modulated_trem(c, e))
        };
        let s1 = r.0;
        let c = s1.channels[ch];
        with_voice(
            s1,
            ch,
            Voice { volume: clamp_spec(c.volume + r.1, 0, 64) as usize, period: c.period, ..s1.voices[ch] },
        )
    }

    /// Channels `0..n` processed in order.
    pub open spec fn channels_ticked(&self, s: PlayState, n: nat) -> PlayState
        decreases n,
    {
        if n == 0 { s } else { self.channel_ticked(self.channels_ticked(s, (n - 1) as nat), n - 1) }
    }

    /// One tick: the four channels in order, then the counters advance.
    pub open spec fn ticked(&self, s: PlayState) -> PlayState {
        advanced(self.channels_ticked(s, 4), self.position_count as int)
    }
}

/// `s` after its playing voices render `n` frames.
pub open spec fn voices_rendered(s: PlayState, n: nat) -> PlayState {
    PlayState {
        voices: Seq::new(
            s.voices.len(),
            |c: int| if s.voices[c].sample is Some { s.voices[c].after(n) } else { s.voices[c] },
        ),
        ..s
    }
}

impl Song {
    /// The render driver on `len` frames from state `s` with `tr` frames
    /// left in the current tick and `since` frames rendered since the last
    /// tick: each time the tick's frames are spent a tick runs and the budget
    /// becomes the tick rate, otherwise the voices render as many frames as
    /// the tick and the request both allow. Gives the state, the frames left
    /// in the tick and the frames rendered since the last tick.
    pub open spec fn driven(self, s: PlayState, tr: int, since: int, len: int) -> (PlayState, int, int)
        decreases len, (if tr <= 0 { 1int } else { 0int }),
    {
        if len <= 0 {
            (s, tr, since)
        } else if tr <= 0 {
            let s2 = self.ticked(s);
            if s2.tick_rate == 0 {
                (s2, 0, 0)
            } else {
                self.driven(s2, s2.tick_rate as int, 0, len)
            }
        } else {
            let todo = if len < tr { len } else { tr };
            self.driven(voices_rendered(s, todo as nat), tr - todo, since + todo, len - todo)
        }
    }
}

/// The render driver never loses frame budget: the frames left in the
/// current tick plus the frames rendered since the last tick always make up
/// the tick rate, across any number of ticks and tempo changes.
pub proof fn lemma_frame_budget(song: Song, s: PlayState, tr: int, since: int, len: int)
    requires
        tr >= 0,
        tr + since == s.tick_rate,
    ensures
        song.driven(s, tr, since, len).1 + song.driven(s, tr, since, len).2 == song.driven(s, tr, since, len).0.tick_rate,
    decreases len, (if tr <= 0 { 1int } else { 0int }),
{
    if len <= 0 {
    } else if tr <= 0 {
        let s2 = song.ticked(s);
        if s2.tick_rate != 0 {
            lemma_frame_budget(song, s2, s2.tick_rate as int, 0, len);
        }
    } else {
        let todo = if len < tr { len } else { tr };
        lemma_frame_budget(song, voices_rendered(s, todo as nat), tr - todo, since + todo, len - todo);
    }
}

/// Speed, tempo, tick, row, position and delay of `a` and `b` agree.
pub open spec fn same_position(a: PlayState, b: PlayState) -> bool {
    &&& a.speed == b.speed
    &&& a.tick_rate == b.tick_rate
    &&& a.cur_tick == b.cur_tick
    &&& a.cur_row == b.cur_row
    &&& a.cur_pos == b.cur_pos
    &&& a.delay == b.delay
}

/// On a later tick, a channel whose event is no position jump, pattern
/// break or extended effect leaves speed, tempo and position alone.
pub proof fn lemma_quiet_channel(song: Song, x: PlayState, ch: int)
    requires
        x.cur_tick >= 1,
        song.event_in(x, ch).fx != 11,
        song.event_in(x, ch).fx != 13,
        song.event_in(x, ch).fx != 14,
    ensures
        same_position(song.channel_ticked(x, ch), x),
{
    reveal(Song::channel_ticked);
    reveal(Song::flowed);
}

/// A position jump to `P` on the last tick of a row (when the channels
/// before it left the position alone) makes the next tick start at row 0 of
/// position `P`, when `P` is a position of the song.
pub proof fn lemma_jump_tick(song: Song, s: PlayState, c: int)
    requires
        0 <= c < 4,
        s.speed >= 2,
        s.cur_tick == s.speed - 1,
        s.delay == 0,
        same_position(song.channels_ticked(s, c as nat), s),
        song.event_in(s, c).fx == 11,
        song.event_in(s, c).fx_param <= song.position_count,
        song.event_in(s, c).fx_param < 128,
    ensures
        song.ticked(s).cur_tick == 0,
        song.ticked(s).cur_row == 0,
        song.ticked(s).cur_pos == song.event_in(s, c).fx_param,
{
    let p = song.event_in(s, c).fx_param;
    let m = song.channels_ticked(s, c as nat);
    assert(song.event_in(m, c) == song.event_in(s, c));
    reveal(Song::channel_ticked);
    reveal(Song::flowed);
    let m1 = song.channels_ticked(s, (c + 1) as nat);
    assert(m1 == song.channel_ticked(m, c));
    assert(m1.cur_row == -1 && m1.cur_pos == p && m1.cur_tick == s.cur_tick && m1.speed == s.speed && m1.delay == 0);
    lemma_rows_quiet_after_jump(song, s, (c + 1) as nat, 4, p);
}

/// Channels `from..to` processed after a jump (row -1) read no event, so
/// they leave the position alone.
proof fn lemma_rows_quiet_after_jump(song: Song, s: PlayState, from: nat, to: nat, p: usize)
    requires
        from <= to <= 4,
        song.channels_ticked(s, from).cur_row == -1,
        song.channels_ticked(s, from).cur_pos == p,
        song.channels_ticked(s, from).cur_tick == s.cur_tick,
        song.channels_ticked(s, from).speed == s.speed,
        song.channels_ticked(s, from).delay == s.delay,
        s.cur_tick >= 1,
    ensures
        song.channels_ticked(s, to).cur_row == -1,
        song.channels_ticked(s, to).cur_pos == p,
        song.channels_ticked(s, to).cur_tick == s.cur_tick,
        song.channels_ticked(s, to).speed == s.speed,
        song.channels_ticked(s, to).delay == s.delay,
    decreases to - from,
{
    if from < to {
        let x = song.channels_ticked(s, from);
        lemma_quiet_channel(song, x, from as int);
        lemma_rows_quiet_after_jump(song, s, from + 1, to, p);
    }
}

/// A pattern break with parameter `x` on the last tick of a row (when the
/// channels before it left the position alone, and the channels after it
/// find no jump, break or extended effect at the new place) makes the next
/// tick start at row `break_row(x)` of the next position.
pub proof fn lemma_break_tick(song: Song, s: PlayState, c: int)
    requires
        0 <= c < 4,
        s.speed >= 2,
        s.cur_tick == s.speed - 1,
        s.delay == 0,
        same_position(song.channels_ticked(s, c as nat), s),
        song.event_in(s, c).fx == 13,
        1 <= break_row(song.event_in(s, c).fx_param as int) < 64,
        s.cur_pos + 1 <= song.position_count,
        s.cur_pos + 1 < 128,
        forall|j: int| c < j < 4 ==> {
            let e = #[trigger] song.patterns[song.pattern_list[s.cur_pos + 1] as int].event(
                break_row(song.event_in(s, c).fx_param as int) - 1,
                j,
            );
            e.fx != 11 && e.fx != 13 && e.fx != 14
        },
    ensures
        song.ticked(s).cur_tick == 0,
        song.ticked(s).cur_row == break_row(song.event_in(s, c).fx_param as int),
        song.ticked(s).cur_pos == s.cur_pos + 1,
{
    let m = song.channels_ticked(s, c as nat);
    assert(song.event_in(m, c) == song.event_in(s, c));
    reveal(Song::channel_ticked);
    reveal(Song::flowed);
    let m1 = song.channels_ticked(s, (c + 1) as nat);
    assert(m1 == song.channel_ticked(m, c));
    lemma_rows_quiet_after_break(song, s, c, (c + 1) as nat, 4);
}

proof fn lemma_rows_quiet_after_break(song: Song, s: PlayState, c: int, from: nat, to: nat)
    requires
        c < from <= to <= 4,
        s.cur_tick >= 1,
        0 <= song.channels_ticked(s, from).cur_row < 64,
        song.channels_ticked(s, from).cur_pos < 128,
        forall|j: int| c < j < 4 ==> {
            let e = #[trigger] song.patterns[song.pattern_list[song.channels_ticked(s, from).cur_pos as int] as int].event(
                song.channels_ticked(s, from).cur_row as int,
                j,
            );
            e.fx != 11 && e.fx != 13 && e.fx != 14
        },
        song.channels_ticked(s, from).cur_tick == s.cur_tick,
    ensures
        same_position(song.channels_ticked(s, to), song.channels_ticked(s, from)),
    decreases to - from,
{
    if from < to {
        let x = song.channels_ticked(s, from);
        assert(song.event_in(x, from as int) == song.patterns[song.pattern_list[x.cur_pos as int] as int].event(
            x.cur_row as int,
            from as int,
        ));
        lemma_quiet_channel(song, x, from as int);
        lemma_rows_quiet_after_break(song, s, c, from + 1, to);
    }
}

/// On the first tick of a row, effect 15 with parameter 0 leaves speed and
/// tempo alone, a parameter up to 32 sets the speed and a larger one the
/// tempo.
pub proof fn lemma_speed_effect(song: Song, x: PlayState, ch: int)
    requires
        x.cur_tick == 0,
        song.event_in(x, ch).fx == 15,
    ensures
        ({
            let p = song.event_in(x, ch).fx_param;
            let y = song.channel_ticked(x, ch);
            &&& p == 0 ==> y.speed == x.speed && y.tick_rate == x.tick_rate
            &&& 1 <= p <= 32 ==> y.speed == p && y.tick_rate == x.tick_rate
            &&& p > 32 ==> y.speed == x.speed && y.tick_rate == tick_rate_of(p as int)
        }),
{
    reveal(Song::channel_ticked);
    reveal(Song::first_tick);
    reveal(Song::taken);
    reveal(Song::triggered);
}

/// On the first tick of a row a delayed note (extended effect 13) neither
/// restarts the voice nor changes the channel's note; it latches the delay
/// when the parameter's low nibble is nonzero.
pub proof fn lemma_note_delay_waits(song: Song, x: PlayState, ch: int)
    requires
        0 <= ch < x.channels.len(),
        x.channels.len() == x.voices.len(),
        x.cur_tick == 0,
        is_note_delay(song.event_in(x, ch)),
    ensures
        ({
            let y = song.channel_ticked(x, ch);
            let e = song.event_in(x, ch);
            &&& y.voices[ch] == Voice { volume: y.voices[ch].volume, period: y.voices[ch].period, ..x.voices[ch] }
            &&& y.channels[ch].note == x.channels[ch].note
            &&& e.fx_param % 16 > 0 ==> y.channels[ch].fx_buf14@[13] == e.fx_param % 16
        }),
{
    reveal(Song::channel_ticked);
    reveal(Song::first_tick);
    reveal(Song::taken);
    reveal(Song::extended_started);
}

/// On a later tick equal to the latched delay, a delayed note restarts the
/// voice with the channel's sample from its start (the voice then takes the
/// channel's period and volume), and the channel takes the event's note.
pub proof fn lemma_note_delay_fires(song: Song, x: PlayState, ch: int)
    requires
        0 <= ch < x.channels.len(),
        x.channels.len() == x.voices.len(),
        x.cur_tick >= 1,
        is_note_delay(song.event_in(x, ch)),
        x.cur_tick == x.channels[ch].fx_buf14@[13],
        1 <= x.channels[ch].sample <= song.samples.len(),
    ensures
        ({
            let y = song.channel_ticked(x, ch);
            let c = x.channels[ch];
            let e = song.event_in(x, ch);
            &&& y.voices[ch] == Voice {
                volume: y.voices[ch].volume,
                period: y.voices[ch].period,
                ..triggered_voice(x.voices[ch], song.samples[c.sample - 1], c.sample - 1, 0)
            }
            &&& e.note > 0 ==> y.channels[ch].note == e.note
        }),
{
    reveal(Song::channel_ticked);
    reveal(Song::flowed);
    reveal(modulated);
    reveal(Song::triggered);
}

impl Song {
    /// The body of the sample that voice `c` of `s` plays; empty when silent.
    pub open spec fn voice_data(self, s: PlayState, c: int) -> Seq<i8> {
        match s.voices[c].sample {
            Some(i) => self.samples[i as int].data@,
            None => Seq::empty(),
        }
    }

    /// What the four voices of `s` add at element `k` when they render `n`
    /// frames from element `offset` on: channels 0 and 3 to the left (even)
    /// elements, 1 and 2 to the right (odd) ones.
    pub open spec fn mix_of(self, s: PlayState, k: int, offset: int, n: int) -> int {
        contribution(s.voices[0], self.voice_data(s, 0), k, offset, n)
            + contribution(s.voices[1], self.voice_data(s, 1), k, offset + 1, n)
            + contribution(s.voices[2], self.voice_data(s, 2), k, offset + 1, n)
            + contribution(s.voices[3], self.voice_data(s, 3), k, offset, n)
    }

    /// Element `k` of the output of the render driver (see `driven`) on
    /// `len` frames written from element `offset` on; 0 outside them.
    pub open spec fn driven_out(self, s: PlayState, tr: int, len: int, offset: int, k: int) -> int
        decreases len, (if tr <= 0 { 1int } else { 0int }),
    {
        if len <= 0 {
            0
        } else if tr <= 0 {
            let s2 = self.ticked(s);
            if s2.tick_rate == 0 {
                0
            } else {
                self.driven_out(s2, s2.tick_rate as int, len, offset, k)
            }
        } else {
            let todo = if len < tr { len } else { tr };
            if offset <= k < offset + 2 * todo {
                self.mix_of(s, k, offset, todo)
            } else {
                self.driven_out(voices_rendered(s, todo as nat), tr - todo, len - todo, offset + 2 * todo, k)
            }
        }
    }
}

/// Every event of every pattern of the song is empty.
pub open spec fn all_events_empty(song: Song) -> bool {
    forall|i: int, r: int, c: int| 0 <= i < song.patterns.len() && 0 <= r < 64 && 0 <= c < 4
        ==> #[trigger] song.patterns[i].event(r, c) == empty_event()
}

/// Every voice of `s` is silent.
pub open spec fn all_silent(s: PlayState) -> bool {
    &&& s.voices.len() == 4
    &&& forall|c: int| 0 <= c < 4 ==> (#[trigger] s.voices[c]).sample is None
}

/// A channel whose event is empty starts no voice.
proof fn lemma_empty_event_keeps_silence(song: Song, x: PlayState, ch: int)
    requires
        0 <= ch < 4,
        x.channels.len() == 4,
        all_silent(x),
        song.event_in(x, ch) == empty_event(),
    ensures
        all_silent(song.channel_ticked(x, ch)),
        song.channel_ticked(x, ch).channels.len() == 4,
{
    reveal(Song::channel_ticked);
    reveal(Song::first_tick);
    reveal(Song::taken);
    reveal(Song::flowed);
    reveal(modulated);
}

/// A song of empty events keeps silent voices silent through a tick.
proof fn lemma_tick_keeps_silence(song: Song, s: PlayState, n: nat)
    requires
        n <= 4,
        all_events_empty(song),
        forall|i: int| 0 <= i < 128 ==> #[trigger] song.pattern_list[i] < song.patterns.len(),
        song.pattern_list.len() == 128,
        s.channels.len() == 4,
        all_silent(s),
    ensures
        all_silent(song.channels_ticked(s, n)),
        song.channels_ticked(s, n).channels.len() == 4,
    decreases n,
{
    if n > 0 {
        lemma_tick_keeps_silence(song, s, (n - 1) as nat);
        let x = song.channels_ticked(s, (n - 1) as nat);
        if 0 <= x.cur_row < 64 && x.cur_pos < 128 {
            assert(song.patterns[song.pattern_list[x.cur_pos as int] as int].event(x.cur_row as int, n - 1)
                == empty_event());
        }
        lemma_empty_event_keeps_silence(song, x, n - 1);
    }
}

/// A song whose events are all empty, played from silent voices, renders
/// silence: every output element of the render driver is 0.
pub proof fn lemma_silent_song_renders_silence(song: Song, s: PlayState, tr: int, len: int, offset: int, k: int)
    requires
        all_events_empty(song),
        forall|i: int| 0 <= i < 128 ==> #[trigger] song.pattern_list[i] < song.patterns.len(),
        song.pattern_list.len() == 128,
        s.channels.len() == 4,
        all_silent(s),
    ensures
        song.driven_out(s, tr, len, offset, k) == 0,
    decreases len, (if tr <= 0 { 1int } else { 0int }),
{
    if len <= 0 {
    } else if tr <= 0 {
        lemma_tick_keeps_silence(song, s, 4);
        let s2 = song.ticked(s);
        if s2.tick_rate != 0 {
            lemma_silent_song_renders_silence(song, s2, s2.tick_rate as int, len, offset, k);
        }
    } else {
        let todo = if len < tr { len } else { tr };
        let s2 = voices_rendered(s, todo as nat);
        assert(all_silent(s2));
        lemma_silent_song_renders_silence(song, s2, tr - todo, len - todo, offset + 2 * todo, k);
    }
}

/// After a channel's tick its voice has the channel's period, and the
/// channel's volume plus the tick's tremolo offset limited to `[0, 64]`.
pub proof fn lemma_voice_commit(song: Song, x: PlayState, ch: int)
    requires
        0 <= ch < x.channels.len(),
        x.channels.len() == x.voices.len(),
    ensures
        ({
            let y = song.channel_ticked(x, ch);
            let e = song.event_in(x, ch);
            let trem = if x.cur_tick == 0 {
                song.first_tick(x, ch, e).1
            } else {
                modulated_trem(x.channels[ch], e)
            };
            &&& y.voices[ch].period == y.channels[ch].period
            &&& y.voices[ch].volume == clamp_spec(y.channels[ch].volume + trem, 0, 64)
            &&& y.voices[ch].volume <= 64
        }),
{
    reveal(Song::channel_ticked);
    reveal(Song::first_tick);
    reveal(Song::taken);
    reveal(Song::triggered);
    reveal(Song::extended_started);
    reveal(Song::flowed);
}

/// On a later tick a slide up sets the period to `max(113, period - fx_buf[1])`
/// and a slide down to `min(856, period + fx_buf[2])`.
pub proof fn lemma_slides_on_later_ticks(song: Song, x: PlayState, ch: int)
    requires
        0 <= ch < x.channels.len(),
        x.channels.len() == x.voices.len(),
        x.cur_tick >= 1,
    ensures
        ({
            let y = song.channel_ticked(x, ch);
            let e = song.event_in(x, ch);
            let c = x.channels[ch];
            &&& e.fx == 1 ==> y.channels[ch].period == (if c.period - c.fx_buf@[1] > 113 {
                c.period - c.fx_buf@[1]
            } else {
                113
            })
            &&& e.fx == 2 ==> y.channels[ch].period == (if c.period + c.fx_buf@[2] < 856 {
                c.period + c.fx_buf@[2]
            } else {
                856
            })
        }),
{
    reveal(Song::channel_ticked);
    reveal(Song::flowed);
    reveal(modulated);
}

/// On the first tick of a row a fine slide up (extended effect 1) sets the
/// period to `max(113, p - m)` and a fine slide down (2) to `min(856, p + m)`,
/// where `p` is the period after the row's note was taken up and `m` the
/// sub-effect's memory after this row's parameter was latched.
pub proof fn lemma_fine_slides(song: Song, x: PlayState, ch: int)
    requires
        0 <= ch < x.channels.len(),
        x.channels.len() == x.voices.len(),
        x.cur_tick == 0,
        song.event_in(x, ch).fx == 14,
    ensures
        ({
            let e = song.event_in(x, ch);
            let sub = e.fx_param / 16;
            let lo = e.fx_param % 16;
            let c = song.taken(x, ch, e).channels[ch];
            let m = if lo > 0 { lo as int } else { c.fx_buf14@[sub as int] as int };
            let y = song.channel_ticked(x, ch);
            &&& sub == 1 ==> y.channels[ch].period == (if c.period - m > 113 { c.period - m } else { 113 })
            &&& sub == 2 ==> y.channels[ch].period == (if c.period + m < 856 { c.period + m } else { 856 })
        }),
{
    reveal(Song::channel_ticked);
    reveal(Song::first_tick);
    reveal(Song::extended_started);
    reveal(Song::taken);
    reveal(Song::triggered);
}

} // verus!
