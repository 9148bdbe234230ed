//! Per-channel interpreter state.
use vstd::prelude::*;
use crate::tables::{period_value, period_table_ok, lemma_period_rows_descend};
use crate::clamp_spec;

verus! {

/// Largest magnitude of a semitone or finetune offset.
pub const OFFSET_LIMIT: i64 = 0x1_0000_0000;

pub struct Channel {
    /// Note index `1..=60`; 0 for silence.
    pub note: usize,
    pub period: usize,
    /// 1-based sample index; 0 for none.
    pub sample: usize,
    pub fine_tune: isize,
    pub volume: usize,
    pub loop_start: usize,
    pub loop_count: usize,
    pub retrig_count: usize,
    pub vib_wave: usize,
    pub vib_retr: usize,
    pub vib_pos: usize,
    pub vib_ampl: usize,
    pub vib_speed: usize,
    pub trem_wave: usize,
    pub trem_retr: usize,
    pub trem_pos: usize,
    pub trem_ampl: usize,
    pub trem_speed: usize,
    /// Last nonzero parameter of each effect.
    pub fx_buf: [usize; 16],
    /// Last nonzero parameter of each extended effect.
    pub fx_buf14: [usize; 16],
}

/// The period of `note` shifted by `offs` semitones and `fine_offs` finetune
/// steps from finetune `fine_tune`; 0 when there is no note.
pub open spec fn shifted_period(note: int, fine_tune: int, offs: int, fine_offs: int) -> int {
    if note == 0 {
        0
    } else {
        let f = fine_tune + fine_offs;
        period_value(f % 16, clamp_spec(note + offs + (f + 8) / 16 - 1, 0, 59))
    }
}

impl Channel {
    /// Every field is within the range that the interpreter keeps it in.
    pub open spec fn well_formed(&self) -> bool {
        &&& self.note <= 60
        &&& self.period <= 65535
        &&& self.sample <= 31
        &&& -8 <= self.fine_tune <= 7
        &&& self.volume <= 64
        &&& self.loop_start < 64
        &&& self.loop_count <= 15
        &&& self.retrig_count <= 16
        &&& self.vib_wave < 3
        &&& self.vib_pos < 64
        &&& self.vib_ampl <= 15
        &&& self.vib_speed <= 15
        &&& self.vib_retr <= 4
        &&& self.trem_wave < 3
        &&& self.trem_pos < 64
        &&& self.trem_ampl <= 15
        &&& self.trem_speed <= 15
        &&& self.trem_retr <= 4
        &&& forall|i: int| 0 <= i < 16 ==> #[trigger] self.fx_buf@[i] <= 255
        &&& forall|i: int| 0 <= i < 16 ==> #[trigger] self.fx_buf14@[i] <= 15
    }

    /// Every field is zero.
    pub open spec fn is_cleared(&self) -> bool {
        &&& self.note == 0 && self.period == 0 && self.sample == 0 && self.fine_tune == 0
        &&& self.volume == 0 && self.loop_start == 0 && self.loop_count == 0 && self.retrig_count == 0
        &&& self.vib_wave == 0 && self.vib_retr == 0 && self.vib_pos == 0 && self.vib_ampl == 0
        &&& self.vib_speed == 0
        &&& self.trem_wave == 0 && self.trem_retr == 0 && self.trem_pos == 0 && self.trem_ampl == 0
        &&& self.trem_speed == 0
        &&& forall|i: int| 0 <= i < 16 ==> #[trigger] self.fx_buf@[i] == 0
        &&& forall|i: int| 0 <= i < 16 ==> #[trigger] self.fx_buf14@[i] == 0
    }

    /// A silent channel with every field zero.
    pub fn new() -> (r: Channel)
        ensures
            r.is_cleared(),
            r.well_formed(),
            r.note == 0,
            r.period == 0,
            r.sample == 0,
            r.fine_tune == 0,
            r.volume == 0,
            r.loop_start == 0,
            r.loop_count == 0,
            r.retrig_count == 0,
            r.vib_wave == 0 && r.vib_retr == 0 && r.vib_pos == 0,
            r.vib_ampl == 0 && r.vib_speed == 0,
            r.trem_wave == 0 && r.trem_retr == 0 && r.trem_pos == 0,
            r.trem_ampl == 0 && r.trem_speed == 0,
            forall|i: int| 0 <= i < 16 ==> #[trigger] r.fx_buf@[i] == 0,
            forall|i: int| 0 <= i < 16 ==> #[trigger] r.fx_buf14@[i] == 0,
    {
        Channel {
            note: 0,
            period: 0,
            sample: 0,
            fine_tune: 0,
            volume: 0,
            loop_start: 0,
            loop_count: 0,
            retrig_count: 0,
            vib_wave: 0,
            vib_retr: 0,
            vib_pos: 0,
            vib_ampl: 0,
            vib_speed: 0,
            trem_wave: 0,
            trem_retr: 0,
            trem_pos: 0,
            trem_ampl: 0,
            trem_speed: 0,
            fx_buf: [0; 16],
            fx_buf14: [0; 16],
        }
    }

    /// The period of the current note shifted by `offs` semitones and
    /// `fine_offs` finetune steps; 0 when there is no note.
    pub fn get_period(&self, p_table: &Vec<Vec<u16>>, offs: isize, fine_offs: isize) -> (r: usize)
        requires
            period_table_ok(p_table@),
            self.well_formed(),
            -OFFSET_LIMIT <= offs <= OFFSET_LIMIT,
            -OFFSET_LIMIT <= fine_offs <= OFFSET_LIMIT,
        ensures
            r as int == shifted_period(self.note as int, self.fine_tune as int, offs as int, fine_offs as int),
            r <= 65535,
    {
        let f: i64 = self.fine_tune as i64 + fine_offs as i64;
        let t: i64 = f + 8;
        let k: i64 = (t + 0x4_0000_0000) / 16 - 0x4000_0000;
        assert(k == t / 16) by (nonlinear_arith)
            requires
                k == (t + 0x4_0000_0000) / 16 - 0x4000_0000,
                t + 0x4_0000_0000 >= 0,
        ;
        proof {
            vstd::arithmetic::div_mod::lemma_fundamental_div_mod(t as int, 16);
        }
        let ft: i64 = f - 16 * k;
        assert(-8 <= ft <= 7);
        assert(f % 16 == (if ft < 0 { ft + 16 } else { ft as int })) by {
            if ft < 0 {
                vstd::arithmetic::div_mod::lemma_mod_multiples_vanish((k - 1) as int, (ft + 16) as int, 16);
                assert(f == 16 * (k - 1) + (ft + 16));
            } else {
                vstd::arithmetic::div_mod::lemma_mod_multiples_vanish(k as int, ft as int, 16);
            }
            vstd::arithmetic::div_mod::lemma_small_mod((if ft < 0 { ft + 16 } else { ft as int }) as nat, 16);
        }
        if self.note > 0 {
            let idx: i64 = self.note as i64 + offs as i64 + k - 1;
            let clamped: usize = if idx < 0 { 0 } else if idx > 59 { 59 } else { idx as usize };
            let row: usize = if ft < 0 { (ft + 16) as usize } else { ft as usize };
            return p_table[row][clamped] as usize;
        }
        0
    }

    /// Sets the period to `get_period(offs, fine_offs)` when there is a note.
    pub fn set_period(&mut self, p_table: &Vec<Vec<u16>>, offs: isize, fine_offs: isize)
        requires
            period_table_ok(p_table@),
            old(self).well_formed(),
            -OFFSET_LIMIT <= offs <= OFFSET_LIMIT,
            -OFFSET_LIMIT <= fine_offs <= OFFSET_LIMIT,
        ensures
            final(self).well_formed(),
            *final(self) == old(self).with_period(offs as int, fine_offs as int),
    {
        if self.note > 0 {
            self.period = self.get_period(p_table, offs, fine_offs);
        }
    }
}

/// Volume after a volume slide with parameter `param`: up by the high
/// nibble when it is nonzero, else down by the low nibble, within `[0, 64]`.
pub open spec fn slid_volume(volume: int, param: int) -> int {
    if param / 16 > 0 {
        if volume + param / 16 > 64 { 64 } else { volume + param / 16 }
    } else {
        if volume - param % 16 < 0 { 0 } else { volume - param % 16 }
    }
}

/// Period after a portamento step of `speed` toward `target`, without overshoot.
pub open spec fn porta_period(period: int, target: int, speed: int) -> int {
    if period > target {
        if period - speed > target { period - speed } else { target }
    } else {
        if period + speed < target { period + speed } else { target }
    }
}

impl Channel {
    /// The channel with its period set to `shifted_period(offs, fine_offs)`
    /// when it has a note.
    pub open spec fn with_period(self, offs: int, fine_offs: int) -> Channel {
        if self.note > 0 {
            Channel { period: shifted_period(self.note as int, self.fine_tune as int, offs, fine_offs) as usize, ..self }
        } else {
            self
        }
    }

    /// The channel after a volume slide with parameter `param`.
    pub open spec fn vol_slid(self, param: int) -> Channel {
        Channel { volume: slid_volume(self.volume as int, param) as usize, ..self }
    }

    /// The channel after a slide up by `amount`: `max(113, period - amount)`.
    pub open spec fn slid_up(self, amount: int) -> Channel {
        Channel { period: (if self.period - amount > 113 { self.period - amount } else { 113 }) as usize, ..self }
    }

    /// The channel after a slide down by `amount`: `min(856, period + amount)`.
    pub open spec fn slid_down(self, amount: int) -> Channel {
        Channel { period: (if self.period + amount < 856 { self.period + amount } else { 856 }) as usize, ..self }
    }

    /// The channel after one portamento step toward its note's period.
    pub open spec fn porta_stepped(self) -> Channel {
        Channel {
            period: porta_period(
                self.period as int,
                shifted_period(self.note as int, self.fine_tune as int, 0, 0),
                self.fx_buf@[3] as int,
            ) as usize,
            ..self
        }
    }

    /// The channel side of a note trigger.
    pub open spec fn retriggered(self) -> Channel {
        let c = self.with_period(0, 0);
        Channel {
            vib_pos: if c.vib_retr == 0 { 0 } else { c.vib_pos },
            trem_pos: if c.trem_retr == 0 { 0 } else { c.trem_pos },
            ..c
        }
    }

    /// Applies a volume slide with parameter `param`.
    pub fn vol_slide(&mut self, param: usize)
        requires
            old(self).well_formed(),
            param <= 255,
        ensures
            final(self).well_formed(),
            *final(self) == old(self).vol_slid(param as int),
    {
        let hi = param / 16;
        let lo = param % 16;
        if hi > 0 {
            self.volume = if self.volume + hi > 64 { 64 } else { self.volume + hi };
        } else {
            self.volume = if self.volume < lo { 0 } else { self.volume - lo };
        }
    }

    /// Slides the period up in pitch: `max(113, period - amount)`.
    pub fn slide_up(&mut self, amount: usize)
        requires
            old(self).well_formed(),
        ensures
            final(self).well_formed(),
            *final(self) == old(self).slid_up(amount as int),
    {
        self.period = if self.period > amount && self.period - amount > 113 { self.period - amount } else { 113 };
    }

    /// Slides the period down in pitch: `min(856, period + amount)`.
    pub fn slide_down(&mut self, amount: usize)
        requires
            old(self).well_formed(),
            amount <= 255,
        ensures
            final(self).well_formed(),
            *final(self) == old(self).slid_down(amount as int),
    {
        self.period = if self.period + amount < 856 { self.period + amount } else { 856 };
    }

    /// Moves the period toward the current note's period by `fx_buf[3]`.
    pub fn tone_portamento(&mut self, p_table: &Vec<Vec<u16>>)
        requires
            old(self).well_formed(),
            period_table_ok(p_table@),
        ensures
            final(self).well_formed(),
            *final(self) == old(self).porta_stepped(),
    {
        let np = self.get_period(p_table, 0, 0);
        let speed = self.fx_buf[3];
        if self.period > np {
            self.period = if self.period > np + speed { self.period - speed } else { np };
        } else {
            self.period = if self.period + speed < np { self.period + speed } else { np };
        }
    }

    /// The channel side of a note trigger: the period of the note, and the
    /// oscillator phases reset unless their retrigger flag is set.
    pub fn retrigger_state(&mut self, p_table: &Vec<Vec<u16>>)
        requires
            old(self).well_formed(),
            period_table_ok(p_table@),
        ensures
            final(self).well_formed(),
            *final(self) == old(self).retriggered(),
    {
        self.set_period(p_table, 0, 0);
        if self.vib_retr == 0 {
            self.vib_pos = 0;
        }
        if self.trem_retr == 0 {
            self.trem_pos = 0;
        }
    }
}

/// A slide up never leaves the period below 113, and one that starts within
/// `[113, 856]` stays there; likewise a slide down never leaves it above 856.
pub proof fn lemma_slides_stay_in_range(period: int, amount: int)
    requires
        0 <= amount,
    ensures
        (if period - amount > 113 { period - amount } else { 113 }) >= 113,
        113 <= period <= 856 ==> (if period - amount > 113 { period - amount } else { 113 }) <= 856,
        (if period + amount < 856 { period + amount } else { 856 }) <= 856,
        113 <= period <= 856 ==> (if period + amount < 856 { period + amount } else { 856 }) >= 113,
{
}

/// With no note the period is 0, whatever the offsets.
pub proof fn lemma_no_note_no_period(fine_tune: int, offs: int, fine_offs: int)
    ensures
        shifted_period(0, fine_tune, offs, fine_offs) == 0,
{
}

/// Sixteen finetune steps make one semitone.
pub proof fn lemma_finetune_carry(note: int, fine_tune: int, offs: int, fine_offs: int)
    ensures
        shifted_period(note, fine_tune, offs, fine_offs + 16) == shifted_period(note, fine_tune, offs + 1, fine_offs),
{
    let f = fine_tune + fine_offs;
    vstd::arithmetic::div_mod::lemma_mod_add_multiples_vanish(f, 16);
    assert((f + 16 + 8) / 16 == (f + 8) / 16 + 1) by {
        vstd::arithmetic::div_mod::lemma_div_plus_one(f + 8, 16);
    }
    assert(f + 16 == fine_tune + (fine_offs + 16));
}

/// Within a row of the period table, a later note never has a longer period.
pub proof fn lemma_period_row_monotone(ft: int, i: int, j: int)
    requires
        0 <= ft < 16,
        0 <= i <= j < 60,
    ensures
        period_value(ft, i) >= period_value(ft, j),
    decreases j - i,
{
    if i < j {
        lemma_period_rows_descend();
        assert(period_value(ft, j - 1) >= period_value(ft, j));
        lemma_period_row_monotone(ft, i, j - 1);
    }
}

/// A higher semitone offset never gives a longer period.
pub proof fn lemma_period_monotone(note: int, fine_tune: int, offs1: int, offs2: int, fine_offs: int)
    requires
        offs1 <= offs2,
    ensures
        shifted_period(note, fine_tune, offs1, fine_offs) >= shifted_period(note, fine_tune, offs2, fine_offs),
{
    if note != 0 {
        let f = fine_tune + fine_offs;
        let k = (f + 8) / 16;
        let i1 = clamp_spec(note + offs1 + k - 1, 0, 59);
        let i2 = clamp_spec(note + offs2 + k - 1, 0, 59);
        lemma_period_row_monotone(f % 16, i1, i2);
    }
}

} // verus!
