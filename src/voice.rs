//! One Paula voice: a resampling oscillator over a sample body.
//!
//! The play position is kept in 16.16 fixed point. Each output frame adds
//! `(d0 * (1 - frac) + d1 * frac) * volume` to the buffer, in units of
//! `1 / (65536 * 128 * 64 * 2)` of full scale: the linear interpolation of
//! the two neighbouring PCM bytes, scaled by the volume out of 64 and by a
//! headroom of one half.
use vstd::prelude::*;

verus! {

/// One PCM byte in fixed-point position units.
pub const FRAC_ONE: u64 = 65536;

/// Paula clock (PAL timing).
pub const PAULA_RATE: u64 = 3740000;

/// Output frames per second.
pub const OUT_RATE: u64 = 48000;

/// Largest magnitude of one frame's contribution: `128 * 65536 * 64`.
pub const FRAME_MAX: i64 = 536870912;

/// Largest advance per frame: `PAULA_RATE * FRAC_ONE / OUT_RATE`.
pub const MAX_STEP: u64 = 5106346;

/// Largest play length in bytes: `2 * (loop_start + loop_len)` of 16-bit words.
pub const MAX_SAMPLE_BYTES: usize = 262140;

pub struct Voice {
    /// Play position in 1/65536 PCM bytes.
    pub pos: u64,
    /// Index of the sample being played; `None` when silent.
    pub sample: Option<usize>,
    pub period: usize,
    pub volume: usize,
    /// End of the played region in PCM bytes.
    pub sample_length: usize,
    /// Distance the position wraps back by at the end, in PCM bytes.
    pub loop_length: usize,
}

/// Position advance per output frame at `period`, in 1/65536 bytes.
pub open spec fn step_of(period: int) -> int {
    (PAULA_RATE as int * FRAC_ONE as int) / ((if period < 1 { 1 } else { period }) * OUT_RATE as int)
}

/// Byte `i` of the body, or 0 outside it.
pub open spec fn byte_at(data: Seq<i8>, i: int) -> int {
    if 0 <= i < data.len() { data[i] as int } else { 0 }
}

/// What a voice adds at element `k` of a buffer when it renders `n` frames
/// into every second element from `start` on: nothing when it is silent.
pub open spec fn contribution(v: Voice, data: Seq<i8>, k: int, start: int, n: int) -> int {
    if v.sample is Some && start <= k < start + 2 * n && (k - start) % 2 == 0 {
        v.after(((k - start) / 2 + 1) as nat).frame_value(data)
    } else {
        0
    }
}

impl Voice {
    pub open spec fn well_formed(&self) -> bool {
        &&& self.volume <= 64
        &&& self.period <= 65535
        &&& self.sample_length <= MAX_SAMPLE_BYTES
        &&& self.sample is Some ==> {
            &&& 1 <= self.loop_length <= self.sample_length
            &&& self.pos < self.sample_length * FRAC_ONE as int
        }
    }

    /// The voice after one frame's advance: past the end, the position wraps
    /// back by whole loop lengths until it is inside the region again.
    pub open spec fn advanced(self) -> Voice {
        let p = self.pos as int + step_of(self.period as int);
        let i = p / FRAC_ONE as int;
        if i >= self.sample_length {
            let over = (i - self.sample_length) / (self.loop_length as int) + 1;
            Voice { pos: (p - over * self.loop_length * FRAC_ONE as int) as u64, ..self }
        } else {
            Voice { pos: p as u64, ..self }
        }
    }

    /// The voice after `n` frames.
    pub open spec fn after(self, n: nat) -> Voice
        decreases n,
    {
        if n == 0 { self } else { self.after((n - 1) as nat).advanced() }
    }

    /// What one frame adds at the voice's (already advanced) position.
    pub open spec fn frame_value(self, data: Seq<i8>) -> int {
        let i = self.pos as int / FRAC_ONE as int;
        let f = self.pos as int % FRAC_ONE as int;
        let n = if i + 1 >= self.sample_length { i + 1 - self.loop_length } else { i + 1 };
        (byte_at(data, i) * (FRAC_ONE as int - f) + byte_at(data, n) * f) * self.volume as int
    }

    /// The voice after a trigger (see `trigger`).
    pub open spec fn started(self, sample_index: usize, sample_length: usize, loop_length: usize, offset: usize) -> Voice {
        if sample_length == 0 {
            Voice { sample: None, ..self }
        } else {
            Voice {
                sample: Some(sample_index),
                sample_length,
                loop_length,
                pos: ((if offset < sample_length - 1 { offset as int } else { sample_length - 1 }) * FRAC_ONE as int) as u64,
                ..self
            }
        }
    }

    /// A silent voice.
    pub fn new() -> (r: Voice)
        ensures
            r.well_formed(),
            r.sample is None,
            r.pos == 0,
            r.period == 65535,
            r.volume == 0,
    {
        Voice { pos: 0, sample: None, period: 65535, volume: 0, sample_length: 0, loop_length: 1 }
    }

    /// Starts sample `sample_index` at byte `offset` (at most the last byte),
    /// playing up to `sample_length` and wrapping back by `loop_length`. A
    /// sample of no bytes leaves the voice silent.
    pub fn trigger(&mut self, sample_index: usize, sample_length: usize, loop_length: usize, offset: usize)
        requires
            old(self).well_formed(),
            sample_length <= MAX_SAMPLE_BYTES,
            sample_length > 0 ==> 1 <= loop_length <= sample_length,
        ensures
            final(self).well_formed(),
            *final(self) == old(self).started(sample_index, sample_length, loop_length, offset),
    {
        if sample_length == 0 {
            self.sample = None;
            return;
        }
        self.sample = Some(sample_index);
        self.sample_length = sample_length;
        self.loop_length = loop_length;
        let start: usize = if offset < sample_length - 1 { offset } else { sample_length - 1 };
        self.pos = start as u64 * FRAC_ONE;
    }

    /// Advances the voice by one frame.
    fn advance(&mut self, step: u64)
        requires
            old(self).well_formed(),
            old(self).sample is Some,
            step as int == step_of(old(self).period as int),
            step <= MAX_STEP,
        ensures
            *final(self) == old(self).advanced(),
            final(self).well_formed(),
    {
        let p = self.pos + step;
        let i: u64 = p / FRAC_ONE;
        let sl = self.sample_length as u64;
        let ll = self.loop_length as u64;
        if i >= sl {
            let over: u64 = (i - sl) / ll + 1;
            proof {
                let d = (i - sl) as int;
                vstd::arithmetic::div_mod::lemma_fundamental_div_mod(d, ll as int);
                vstd::arithmetic::div_mod::lemma_mod_pos_bound(d, ll as int);
                assert(over * ll == d - d % (ll as int) + ll) by (nonlinear_arith)
                    requires
                        over == d / (ll as int) + 1,
                        d == ll * (d / (ll as int)) + d % (ll as int),
                ;
                assert(over * ll * FRAC_ONE <= i * FRAC_ONE) by (nonlinear_arith)
                    requires
                        over * ll <= i,
                ;
                assert(i * FRAC_ONE <= p);
                assert((p - over * ll * FRAC_ONE) / (FRAC_ONE as int) == i - over * ll) by (nonlinear_arith)
                    requires
                        i == p / 65536,
                        FRAC_ONE == 65536,
                        over * ll <= i,
                ;
                assert((p - over * ll * FRAC_ONE) < sl * FRAC_ONE) by (nonlinear_arith)
                    requires
                        (p - over * ll * FRAC_ONE) / (FRAC_ONE as int) == i - over * ll,
                        i - over * ll < sl,
                        FRAC_ONE == 65536,
                ;
            }
            self.pos = p - over * ll * FRAC_ONE;
        } else {
            self.pos = p;
        }
    }

    /// The contribution of the current position (see `frame_value`).
    fn frame(&self, data: &Vec<i8>) -> (r: i64)
        requires
            self.well_formed(),
            self.sample is Some,
        ensures
            r as int == self.frame_value(data@),
            -FRAME_MAX <= r <= FRAME_MAX,
    {
        let i = (self.pos / FRAC_ONE) as usize;
        let f = (self.pos % FRAC_ONE) as i64;
        let n: usize = if i + 1 >= self.sample_length { i + 1 - self.loop_length } else { i + 1 };
        let d0: i64 = if i < data.len() { data[i] as i64 } else { 0 };
        let d1: i64 = if n < data.len() { data[n] as i64 } else { 0 };
        let vol = self.volume as i64;
        let g: i64 = 65536 - f;
        assert(-128 * g <= d0 * g <= 128 * g) by (nonlinear_arith)
            requires
                -128 <= d0 <= 127,
                0 <= g,
        ;
        assert(-128 * f <= d1 * f <= 128 * f) by (nonlinear_arith)
            requires
                -128 <= d1 <= 127,
                0 <= f,
        ;
        let s = d0 * g + d1 * f;
        assert(-FRAME_MAX <= s * vol <= FRAME_MAX) by (nonlinear_arith)
            requires
                -8388608 <= s <= 8388608,
                0 <= vol <= 64,
        ;
        s * vol
    }

    /// Adds `samples` frames of the voice to every second element of `buffer`
    /// from `offset` on, and advances the voice by as many frames.
    pub fn render(&mut self, sample: &Vec<i8>, buffer: &mut Vec<i64>, samples: usize, offset: usize)
        requires
            old(self).well_formed(),
            old(self).sample is Some,
            samples == 0 || offset + 2 * (samples - 1) < old(buffer)@.len(),
            forall|k: int|
                offset <= k < old(buffer)@.len() ==> -3 * FRAME_MAX <= #[trigger] old(buffer)@[k] <= 3 * FRAME_MAX,
        ensures
            final(self).well_formed(),
            *final(self) == old(self).after(samples as nat),
            final(self).sample == old(self).sample,
            final(buffer)@.len() == old(buffer)@.len(),
            forall|k: int| 0 <= k < old(buffer)@.len() ==> #[trigger] final(buffer)@[k] == old(buffer)@[k]
                + contribution(*old(self), sample@, k, offset as int, samples as int),
            forall|k: int| 0 <= k < old(buffer)@.len() ==> -FRAME_MAX <= #[trigger] final(buffer)@[k] - old(buffer)@[k] <= FRAME_MAX,
    {
        let period: u64 = if self.period < 1 { 1 } else { self.period as u64 };
        let step: u64 = PAULA_RATE * FRAC_ONE / (period * OUT_RATE);
        assert(step <= MAX_STEP) by (nonlinear_arith)
            requires
                step == PAULA_RATE * FRAC_ONE / (period * OUT_RATE),
                period >= 1,
        ;
        let ghost v0 = *self;
        let ghost b0 = buffer@;
        let blen = buffer.len();
        let mut i: usize = 0;
        while i < samples
            invariant
                blen == b0.len(),
                i <= samples,
                samples == 0 || offset + 2 * (samples - 1) < b0.len(),
                self.well_formed(),
                self.sample is Some,
                *self == v0.after(i as nat),
                self.period == v0.period,
                self.sample == v0.sample,
                step as int == step_of(v0.period as int),
                step <= MAX_STEP,
                buffer@.len() == b0.len(),
                forall|k: int| offset <= k < b0.len() ==> -3 * FRAME_MAX <= #[trigger] b0[k] <= 3 * FRAME_MAX,
                forall|k: int| 0 <= k < b0.len() ==> #[trigger] buffer@[k] == b0[k] + (
                    if offset <= k < offset + 2 * i && (k - offset) % 2 == 0 {
                        v0.after(((k - offset) / 2 + 1) as nat).frame_value(sample@)
                    } else {
                        0
                    }),
                forall|k: int| 0 <= k < b0.len() ==> -FRAME_MAX <= #[trigger] buffer@[k] - b0[k] <= FRAME_MAX,
            decreases samples - i,
        {
            self.advance(step);
            let v = self.frame(sample);
            assert(i * 2 + offset < b0.len());
            let k = i * 2 + offset;
            assert(buffer@[k as int] == b0[k as int]);
            buffer.set(k, buffer[k] + v);
            proof {
                assert(v0.after((i + 1) as nat) == v0.after(i as nat).advanced());
                assert forall|j: int| 0 <= j < b0.len() implies #[trigger] buffer@[j] == b0[j] + (
                    if offset <= j < offset + 2 * (i + 1) && (j - offset) % 2 == 0 {
                        v0.after(((j - offset) / 2 + 1) as nat).frame_value(sample@)
                    } else {
                        0
                    }) by {
                    if j == k {
                        assert((j - offset) / 2 + 1 == i + 1);
                    }
                }
            }
            i += 1;
        }
        proof {
            assert forall|k: int| 0 <= k < b0.len() implies #[trigger] buffer@[k] == b0[k]
                + contribution(v0, sample@, k, offset as int, samples as int) by {}
        }
    }
}

/// A silent voice adds nothing anywhere.
pub proof fn lemma_silent_voice_adds_nothing(v: Voice, data: Seq<i8>, k: int, start: int, n: int)
    requires
        v.sample is None,
    ensures
        contribution(v, data, k, start, n) == 0,
{
}

/// Looping: when a frame's advance carries the position past the end of the
/// played region by less than one loop length, the position moves back by
/// exactly the loop length; the integer position then lies in the last
/// `loop_length` bytes of the region. For a sample that does not loop the
/// loop length is 2, so the voice holds on its last two bytes.
pub proof fn lemma_wrap_by_loop_length(v: Voice)
    requires
        v.well_formed(),
        v.sample is Some,
        step_of(v.period as int) < v.loop_length * FRAC_ONE as int,
        (v.pos as int + step_of(v.period as int)) / FRAC_ONE as int >= v.sample_length,
    ensures
        v.advanced().pos == v.pos as int + step_of(v.period as int) - v.loop_length * FRAC_ONE as int,
        v.sample_length - v.loop_length <= (v.advanced().pos as int) / (FRAC_ONE as int) < v.sample_length,
{
    let p = v.pos as int + step_of(v.period as int);
    let i = p / FRAC_ONE as int;
    let sl = v.sample_length as int;
    let ll = v.loop_length as int;
    assert(p < sl * 65536 + ll * 65536);
    assert(i < sl + ll) by (nonlinear_arith)
        requires
            p < sl * 65536 + ll * 65536,
            i == p / 65536,
    ;
    assert((i - sl) / ll == 0) by (nonlinear_arith)
        requires
            0 <= i - sl < ll,
    ;
    assert((p - ll * 65536) / 65536 == i - ll) by (nonlinear_arith)
        requires
            i == p / 65536,
            p >= 0,
    ;
}

} // verus!
