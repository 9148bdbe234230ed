//! Pattern blocks: 64 rows of 4 events, 4 bytes per event.
use vstd::prelude::*;
use crate::tables::{base_period, base_period_of};

verus! {

/// Number of channels in a row.
pub const CHANNEL_COUNT: usize = 4;

/// Number of rows in a pattern.
pub const ROW_COUNT: usize = 64;

/// Size in bytes of one pattern block.
pub const PATTERN_BYTES: usize = 1024;

/// One cell of a pattern.
#[derive(Clone, Copy, PartialEq, Eq, Structural)]
pub struct Event {
    pub sample: usize,
    pub note: usize,
    pub fx: usize,
    pub fx_param: usize,
}

impl Event {
    /// The fields are within the ranges that a 4-byte cell can encode.
    pub open spec fn bounded(&self) -> bool {
        self.sample <= 255 && self.note <= 60 && self.fx <= 15 && self.fx_param <= 255
    }
}

pub struct Row {
    pub events: Vec<Event>,
}

pub struct Pattern {
    pub rows: Vec<Row>,
}

/// Distance from period `p` to the base period of note `i`.
pub open spec fn note_distance(p: int, i: int) -> int {
    let d = p - base_period(i);
    if d < 0 { -d } else { d }
}

/// The note among `1..=n` closest to period `p`; the lowest such note on a tie.
pub open spec fn closest_note_upto(p: int, n: int) -> int
    decreases n,
{
    if n <= 1 {
        1
    } else {
        let b = closest_note_upto(p, n - 1);
        if note_distance(p, n) < note_distance(p, b) { n } else { b }
    }
}

/// The note index of a period: 0 for no period, else the closest of the sixty notes.
pub open spec fn note_of_period(p: int) -> int {
    if p > 0 { closest_note_upto(p, 60) } else { 0 }
}

/// The event that the four bytes at `off` encode.
pub open spec fn decode_cell(b: Seq<u8>, off: int) -> Event {
    let b0 = b[off];
    let b1 = b[off + 1];
    let b2 = b[off + 2];
    let b3 = b[off + 3];
    let period = (b0 & 0x0F) as int * 256 + b1 as int;
    Event {
        sample: ((b0 & 0xF0) | (b2 >> 4u8)) as usize,
        note: note_of_period(period) as usize,
        fx: (b2 & 0x0F) as usize,
        fx_param: b3 as usize,
    }
}

/// Byte offset of the cell of `row` and `ch` within a pattern block.
pub open spec fn cell_offset(row: int, ch: int) -> int {
    (row * 4 + ch) * 4
}

impl Pattern {
    /// The pattern has 64 rows of 4 events.
    pub open spec fn well_formed(&self) -> bool {
        &&& self.rows@.len() == 64
        &&& forall|r: int| 0 <= r < 64 ==> (#[trigger] self.rows@[r]).events@.len() == 4
    }

    /// Every event's fields are within the ranges that decoding gives.
    pub open spec fn events_bounded(&self) -> bool {
        forall|r: int, c: int|
            0 <= r < 64 && 0 <= c < 4 ==> (#[trigger] self.event(r, c)).bounded()
    }

    /// The event of `row` and `ch`.
    pub open spec fn event(&self, row: int, ch: int) -> Event {
        self.rows@[row].events@[ch]
    }

    /// The pattern is the decoding of the block `b`.
    pub open spec fn decodes(&self, b: Seq<u8>) -> bool {
        &&& self.well_formed()
        &&& forall|r: int, c: int|
            0 <= r < 64 && 0 <= c < 4 ==> #[trigger] self.event(r, c) == decode_cell(b, cell_offset(r, c))
    }

    /// Decodes a 1024-byte pattern block.
    pub fn load(pattern_data: &[u8]) -> (r: Pattern)
        requires
            pattern_data@.len() >= 1024,
        ensures
            r.decodes(pattern_data@),
            r.events_bounded(),
    {
        let mut rows: Vec<Row> = Vec::new();
        let mut row_index: usize = 0;
        while row_index < ROW_COUNT
            invariant
                row_index <= 64,
                pattern_data@.len() >= 1024,
                rows@.len() == row_index,
                forall|r: int| 0 <= r < row_index ==> (#[trigger] rows@[r]).events@.len() == 4,
                forall|r: int, c: int|
                    0 <= r < row_index && 0 <= c < 4 ==> #[trigger] rows@[r].events@[c]
                        == decode_cell(pattern_data@, cell_offset(r, c)),
                forall|r: int, c: int|
                    0 <= r < row_index && 0 <= c < 4 ==> (#[trigger] rows@[r].events@[c]).bounded(),
            decreases 64 - row_index,
        {
            let mut events: Vec<Event> = Vec::new();
            let mut ch: usize = 0;
            while ch < CHANNEL_COUNT
                invariant
                    row_index < 64,
                    ch <= 4,
                    pattern_data@.len() >= 1024,
                    events@.len() == ch,
                    forall|c: int|
                        0 <= c < ch ==> #[trigger] events@[c] == decode_cell(
                            pattern_data@,
                            cell_offset(row_index as int, c),
                        ),
                    forall|c: int| 0 <= c < ch ==> (#[trigger] events@[c]).bounded(),
                decreases 4 - ch,
            {
                let offset = (row_index * CHANNEL_COUNT + ch) * 4;
                events.push(decode_event(pattern_data, offset));
                ch += 1;
            }
            rows.push(Row { events });
            row_index += 1;
        }
        Pattern { rows }
    }
}

/// Decodes the cell at `offset`.
pub fn decode_event(b: &[u8], offset: usize) -> (r: Event)
    requires
        offset + 4 <= b@.len(),
    ensures
        r == decode_cell(b@, offset as int),
        r.bounded(),
{
    let b0 = b[offset];
    let b1 = b[offset + 1];
    let b2 = b[offset + 2];
    let b3 = b[offset + 3];
    let hi = b0 & 0x0F;
    assert(hi <= 15) by (bit_vector)
        requires
            hi == b0 & 0x0F,
    ;
    let period = hi as usize * 256 + b1 as usize;
    let fx = b2 & 0x0F;
    assert(fx <= 15) by (bit_vector)
        requires
            fx == b2 & 0x0F,
    ;
    let note = note_for_period(period);
    proof {
        if period > 0 {
            lemma_closest_note_upto(period as int, 60);
        }
    }
    Event {
        sample: ((b0 & 0xF0) | (b2 >> 4u8)) as usize,
        note,
        fx: fx as usize,
        fx_param: b3 as usize,
    }
}

/// The note index of a period (see `note_of_period`).
pub fn note_for_period(period: usize) -> (r: usize)
    requires
        period < 4096,
    ensures
        r as int == note_of_period(period as int),
{
    if period == 0 {
        return 0;
    }
    let p = period as i32;
    let mut note: usize = 1;
    let mut bestd: i32 = abs_diff(p, base_period_of(1) as i32);
    let mut index: usize = 2;
    while index <= 60
        invariant
            2 <= index <= 61,
            0 < p < 4096,
            note as int == closest_note_upto(p as int, index - 1),
            1 <= note <= 60,
            bestd as int == note_distance(p as int, note as int),
        decreases 61 - index,
    {
        let d = abs_diff(p, base_period_of(index) as i32);
        if d < bestd {
            bestd = d;
            note = index;
        }
        index += 1;
    }
    note
}

fn abs_diff(a: i32, b: i32) -> (r: i32)
    requires
        0 <= a < 4096,
        0 <= b < 4096,
    ensures
        r == (if a - b < 0 { b - a } else { a - b }),
{
    if a < b { b - a } else { a - b }
}

/// Among notes `1..=n`, `closest_note_upto(p, n)` is at least as close to `p`
/// as every other note, and strictly closer than every lower note.
pub proof fn lemma_closest_note_upto(p: int, n: int)
    requires
        1 <= n <= 60,
    ensures
        1 <= closest_note_upto(p, n) <= n,
        forall|i: int|
            1 <= i <= n ==> note_distance(p, closest_note_upto(p, n)) <= #[trigger] note_distance(p, i),
        forall|i: int|
            1 <= i < closest_note_upto(p, n) ==> note_distance(p, closest_note_upto(p, n))
                < #[trigger] note_distance(p, i),
    decreases n,
{
    if n > 1 {
        lemma_closest_note_upto(p, n - 1);
    }
}

/// The note of a nonzero period is the argmin of the distance over the sixty
/// notes, taking the lowest index on a tie.
pub proof fn lemma_note_of_period_is_argmin(p: int)
    requires
        p > 0,
    ensures
        1 <= note_of_period(p) <= 60,
        forall|i: int| 1 <= i <= 60 ==> note_distance(p, note_of_period(p)) <= #[trigger] note_distance(p, i),
        forall|i: int|
            1 <= i < note_of_period(p) ==> note_distance(p, note_of_period(p)) < #[trigger] note_distance(p, i),
{
    lemma_closest_note_upto(p, 60);
}

/// Decoding is a function of the 1024 bytes of the block: two patterns
/// decoded from equal blocks hold the same events.
pub proof fn lemma_decode_deterministic(a: &Pattern, b: &Pattern, da: Seq<u8>, db: Seq<u8>)
    requires
        da.len() >= 1024,
        db.len() >= 1024,
        da.subrange(0, 1024) == db.subrange(0, 1024),
        a.decodes(da),
        b.decodes(db),
    ensures
        forall|r: int, c: int| 0 <= r < 64 && 0 <= c < 4 ==> #[trigger] a.event(r, c) == b.event(r, c),
{
    assert forall|r: int, c: int| 0 <= r < 64 && 0 <= c < 4 implies #[trigger] a.event(r, c) == b.event(r, c) by {
        let off = cell_offset(r, c);
        assert(0 <= off && off + 3 < 1024) by (nonlinear_arith)
            requires
                off == (r * 4 + c) * 4,
                0 <= r < 64,
                0 <= c < 4,
        ;
        assert(da[off] == da.subrange(0, 1024)[off]);
        assert(db[off] == db.subrange(0, 1024)[off]);
        assert(da[off + 1] == da.subrange(0, 1024)[off + 1]);
        assert(db[off + 1] == db.subrange(0, 1024)[off + 1]);
        assert(da[off + 2] == da.subrange(0, 1024)[off + 2]);
        assert(db[off + 2] == db.subrange(0, 1024)[off + 2]);
        assert(da[off + 3] == da.subrange(0, 1024)[off + 3]);
        assert(db[off + 3] == db.subrange(0, 1024)[off + 3]);
    }
}

} // verus!
