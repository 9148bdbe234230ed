use protracktor::channel::Channel;
use protracktor::pattern::{decode_event, note_for_period, Pattern};
use protracktor::player::{LoadError, ModPlayer};
use protracktor::sample::Sample;
use protracktor::tables::{base_period_of, build_period_table, build_vib_table, vib_entry};
use protracktor::voice::Voice;
use protracktor::clamp;

const ORDER_15: usize = 470;
const ORDER_31: usize = 950;

/// A module of `samples` sample headers (15 or 31), one pattern of silence
/// and no sample bodies.
fn blank_module(samples: usize) -> Vec<u8> {
    if samples == 31 {
        let mut m = vec![0u8; 1084 + 1024];
        m[1080..1084].copy_from_slice(b"M.K.");
        m
    } else {
        vec![0u8; 600 + 1024 + 484]
    }
}

fn pattern_start(samples: usize) -> usize {
    if samples == 31 { 1084 } else { 600 }
}

fn set_cell(m: &mut Vec<u8>, samples: usize, row: usize, ch: usize, cell: [u8; 4]) {
    let off = pattern_start(samples) + (row * 4 + ch) * 4;
    m[off..off + 4].copy_from_slice(&cell);
}

fn run_frames(p: &mut ModPlayer, frames: usize) -> Vec<i64> {
    let mut buf = vec![0i64; frames * 2];
    p.render(&mut buf);
    buf
}

#[test]
fn blank_module_loads_and_is_silent() {
    let m = vec![0u8; 2108];
    let mut p = ModPlayer::load(m).unwrap();
    assert_eq!(p.name, "\0".repeat(20));
    assert_eq!(p.samples.len(), 15);
    assert!(p.samples.iter().all(|s| s.length == 0 && s.data.is_empty()));
    assert_eq!(p.pattern_count, 1);
    assert_eq!(p.patterns.len(), 1);
    assert_eq!(p.patterns[0].rows.len(), 64);
    for frames in [1usize, 7, 960, 5000] {
        let buf = run_frames(&mut p, frames);
        assert!(buf.iter().all(|&v| v == 0));
    }
}

#[test]
fn decode_cell_example() {
    // period (0x10 & 0x0F) << 8 | 0xD0 = 208: equally far from 214 (37) and
    // 202 (38), so the lower index wins
    let b = [0x10u8, 0xD0, 0x00, 0x00];
    let e = decode_event(&b, 0);
    assert_eq!(e.note, 37);
    assert_eq!(e.sample, 16);
    assert_eq!(e.fx, 0);
    assert_eq!(e.fx_param, 0);
    // period 0x1D0 = 464: 11 from entry 24 (453), 16 from entry 23 (480)
    let b = [0x11u8, 0xD0, 0x00, 0x00];
    let e = decode_event(&b, 0);
    assert_eq!(e.note, 24);
    assert_eq!(e.sample, 16);
    assert_eq!(base_period_of(24), 453);
    assert_eq!(note_for_period(464), 24);
    let b = [0x00u8, 0x00, 0x5C, 0x40];
    let e = decode_event(&b, 0);
    assert_eq!(e.note, 0);
    assert_eq!(e.sample, 5);
    assert_eq!(e.fx, 12);
    assert_eq!(e.fx_param, 64);
}

#[test]
fn note_mapping_is_argmin_with_low_tie_break() {
    assert_eq!(note_for_period(0), 0);
    assert_eq!(note_for_period(1712), 1);
    assert_eq!(note_for_period(57), 60);
    assert_eq!(note_for_period(1), 60);
    assert_eq!(note_for_period(4095), 1);
    // 1664 lies 48 from 1712 and 48 from 1616: the lower index wins.
    assert_eq!(note_for_period(1664), 1);
    for p in 1..4096usize {
        let n = note_for_period(p);
        let d = (p as i64 - base_period_of(n) as i64).abs();
        for i in 1..=60usize {
            let di = (p as i64 - base_period_of(i) as i64).abs();
            assert!(d <= di);
            if i < n {
                assert!(d < di);
            }
        }
    }
}

#[test]
fn pattern_decoding_is_deterministic() {
    let block: Vec<u8> = (0..1024u32).map(|i| (i * 37 % 251) as u8).collect();
    let a = Pattern::load(&block);
    let b = Pattern::load(&block);
    for r in 0..64 {
        for c in 0..4 {
            assert!(a.rows[r].events[c] == b.rows[r].events[c]);
        }
    }
}

#[test]
fn default_tick_rate() {
    let p = ModPlayer::load(vec![0u8; 2108]).unwrap();
    assert_eq!(p.tick_rate, 960);
    assert_eq!(p.speed, 6);
}

#[test]
fn set_speed_and_tempo() {
    let mut m = blank_module(15);
    set_cell(&mut m, 15, 0, 0, [0, 0, 0x0F, 0x05]);
    set_cell(&mut m, 15, 0, 1, [0, 0, 0x0F, 0x7D]);
    let mut p = ModPlayer::load(m).unwrap();
    run_frames(&mut p, 1);
    assert_eq!(p.speed, 5);
    assert_eq!(p.tick_rate, 960);
}

#[test]
fn speed_effect_boundaries() {
    let mut m = blank_module(15);
    set_cell(&mut m, 15, 0, 0, [0, 0, 0x0F, 0x00]);
    let mut p = ModPlayer::load(m).unwrap();
    run_frames(&mut p, 1);
    assert_eq!(p.speed, 6);
    assert_eq!(p.tick_rate, 960);

    let mut m = blank_module(15);
    set_cell(&mut m, 15, 0, 0, [0, 0, 0x0F, 32]);
    let mut p = ModPlayer::load(m).unwrap();
    run_frames(&mut p, 1);
    assert_eq!(p.speed, 32);
    assert_eq!(p.tick_rate, 960);

    let mut m = blank_module(15);
    set_cell(&mut m, 15, 0, 0, [0, 0, 0x0F, 33]);
    let mut p = ModPlayer::load(m).unwrap();
    run_frames(&mut p, 1);
    assert_eq!(p.speed, 6);
    assert_eq!(p.tick_rate, 120000 / 33);
}

#[test]
fn position_jump_lands_on_row_zero() {
    let mut m = blank_module(15);
    m[ORDER_15] = 5;
    set_cell(&mut m, 15, 0, 0, [0, 0, 0x0B, 3]);
    let mut p = ModPlayer::load(m).unwrap();
    // six ticks: at frames 0, 960, ..., 4800
    run_frames(&mut p, 5 * 960 + 1);
    assert_eq!(p.cur_pos, 3);
    assert_eq!(p.cur_row, 0);
    assert_eq!(p.cur_tick, 0);
}

#[test]
fn pattern_break_goes_to_decimal_row() {
    let mut m = blank_module(15);
    m[ORDER_15] = 5;
    set_cell(&mut m, 15, 0, 0, [0, 0, 0x0D, 0x14]);
    let mut p = ModPlayer::load(m).unwrap();
    run_frames(&mut p, 5 * 960 + 1);
    assert_eq!(p.cur_pos, 1);
    assert_eq!(p.cur_row, 14);
}

/// A module whose sample 1 has a 64-word body of alternating +64 / -64.
fn module_with_sample(loop_start: u16, loop_len: u16) -> Vec<u8> {
    let mut m = blank_module(15);
    let h = 20;
    m[h + 22] = 0;
    m[h + 23] = 64;
    m[h + 25] = 64;
    m[h + 26..h + 28].copy_from_slice(&loop_start.to_be_bytes());
    m[h + 28..h + 30].copy_from_slice(&loop_len.to_be_bytes());
    let body = 600 + 1024;
    m.truncate(body);
    for i in 0..128 {
        m.push(if i % 2 == 0 { 64u8 } else { (-64i8) as u8 });
    }
    m
}

#[test]
fn note_delay_defers_trigger() {
    let mut m = module_with_sample(0, 0);
    // note C-2 (period 428), sample 1, effect E D3
    set_cell(&mut m, 15, 0, 0, [0x01, 0xAC, 0x1E, 0xD3]);
    let mut p = ModPlayer::load(m).unwrap();
    run_frames(&mut p, 1);
    assert!(p.voices[0].sample.is_none());
    run_frames(&mut p, 960);
    assert!(p.voices[0].sample.is_none());
    run_frames(&mut p, 960);
    assert!(p.voices[0].sample.is_none());
    run_frames(&mut p, 960);
    assert_eq!(p.voices[0].sample, Some(0));
    assert_eq!(p.channels[0].note, 25);
}

#[test]
fn note_triggers_voice_and_sounds() {
    let mut m = module_with_sample(0, 0);
    set_cell(&mut m, 15, 0, 0, [0x01, 0xAC, 0x10, 0x00]);
    let mut p = ModPlayer::load(m).unwrap();
    let buf = run_frames(&mut p, 64);
    assert_eq!(p.voices[0].sample, Some(0));
    assert_eq!(p.voices[0].period, 428);
    assert_eq!(p.voices[0].volume, 64);
    // channel 0 is left: odd elements stay silent
    assert!(buf.iter().skip(1).step_by(2).all(|&v| v == 0));
    assert!(buf.iter().step_by(2).any(|&v| v != 0));
}

#[test]
fn voice_advance_and_interpolation() {
    let mut v = Voice::new();
    v.trigger(0, 128, 2, 0);
    v.period = 428;
    v.volume = 64;
    let data: Vec<i8> = (0..128).map(|i| if i % 2 == 0 { 64 } else { -64 }).collect();
    let mut buf = vec![0i64; 128];
    v.render(&data, &mut buf, 64, 0);
    assert_eq!(v.pos >> 16, 11);
    // one frame: step = 3740000 * 65536 / (428 * 48000)
    let step: u64 = 3740000 * 65536 / (428 * 48000);
    assert_eq!(step, 11930);
    let f = step as i64;
    let expect = (64 * (65536 - f) + (-64) * f) * 64;
    assert_eq!(buf[0], expect);
    assert_eq!(buf[1], 0);
    // full scale is 65536 * 128 * 64 * 2
    let peak = buf.iter().map(|v| v.abs()).max().unwrap() as f64 / (65536.0 * 128.0 * 64.0 * 2.0);
    assert!(peak <= 0.25 + 1e-9 && peak > 0.1);
}

#[test]
fn looping_voice_wraps_by_loop_length() {
    let mut v = Voice::new();
    // loop_start 10 words, loop_len 4 words: plays to byte 28, wraps by 8
    v.trigger(0, 28, 8, 27);
    v.period = 428;
    v.volume = 64;
    let data: Vec<i8> = vec![1; 40];
    let mut buf = vec![0i64; 2000];
    let before = v.pos;
    v.render(&data, &mut buf, 6, 0);
    let expect = before + 6 * 11930 - 8 * 65536;
    assert_eq!(v.pos, expect);
    for _ in 0..900 {
        let mut b = vec![0i64; 2];
        v.render(&data, &mut b, 1, 0);
        let i = v.pos >> 16;
        assert!(i >= 20 && i < 28);
    }
}

#[test]
fn one_shot_voice_holds_at_end() {
    let mut v = Voice::new();
    v.trigger(0, 10, 2, 0);
    v.period = 113;
    v.volume = 64;
    let data: Vec<i8> = vec![5; 10];
    let mut buf = vec![0i64; 4000];
    v.render(&data, &mut buf, 2000, 0);
    let i = v.pos >> 16;
    assert!(i >= 8 && i < 10);
}

#[test]
fn empty_sample_stays_silent() {
    let mut v = Voice::new();
    v.trigger(3, 0, 2, 0);
    assert!(v.sample.is_none());
}

#[test]
fn tagged_module_has_31_samples() {
    for tag in [b"M.K.", b"M!K!", b"4TLF"] {
        let mut m = vec![0u8; 1084 + 1024];
        m[1080..1084].copy_from_slice(tag);
        let p = ModPlayer::load(m).unwrap();
        assert_eq!(p.samples.len(), 31);
    }
    let mut m = blank_module(31);
    m[ORDER_31] = 2;
    m[ORDER_31 + 2] = 0;
    set_cell(&mut m, 31, 0, 0, [0, 0, 0x0C, 0x20]);
    let mut p = ModPlayer::load(m).unwrap();
    assert_eq!(p.position_count, 2);
    run_frames(&mut p, 1);
    assert_eq!(p.channels[0].volume, 32);
}

#[test]
fn untagged_module_has_15_samples() {
    for tag in [b"M.K!", b"m.k.", b"\0\0\0\0"] {
        let mut m = vec![0u8; 2108];
        m[1080..1084].copy_from_slice(tag);
        let p = ModPlayer::load(m).unwrap();
        assert_eq!(p.samples.len(), 15);
    }
    let mut m = blank_module(15);
    set_cell(&mut m, 15, 0, 0, [0, 0, 0x0C, 0x30]);
    let mut p = ModPlayer::load(m).unwrap();
    run_frames(&mut p, 1);
    assert_eq!(p.channels[0].volume, 48);
}

#[test]
fn load_errors() {
    assert_eq!(ModPlayer::load(vec![0u8; 100]).err(), Some(LoadError::InvalidHeader));
    assert_eq!(ModPlayer::load(vec![0u8; 1083]).err(), Some(LoadError::InvalidHeader));
    let mut m = vec![0u8; 1084 + 1023];
    m[1080..1084].copy_from_slice(b"M.K.");
    assert_eq!(ModPlayer::load(m).err(), Some(LoadError::TruncatedPattern));
    let mut m = vec![0u8; 2108];
    m[ORDER_15 + 2] = 1;
    assert_eq!(ModPlayer::load(m).err(), Some(LoadError::TruncatedPattern));
    let mut m = module_with_sample(0, 0);
    m.pop();
    assert_eq!(ModPlayer::load(m).err(), Some(LoadError::TruncatedSample));
}

#[test]
fn sample_header_fields() {
    let mut h = vec![0u8; 30];
    h[..5].copy_from_slice(b"piano");
    h[22] = 0x01;
    h[23] = 0x02;
    h[24] = 0x0F;
    h[25] = 40;
    h[26] = 0;
    h[27] = 7;
    h[28] = 0;
    h[29] = 9;
    let mut s = Sample::load(&h);
    assert!(s.name.starts_with("piano"));
    assert_eq!(s.length, 258);
    assert_eq!(s.finetune, -1);
    assert_eq!(s.volume, 40);
    assert_eq!(s.loop_start, 7);
    assert_eq!(s.loop_len, 9);
    let pcm: Vec<u8> = (0..600u32).map(|i| i as u8).collect();
    assert_eq!(s.load_data(&pcm), 516);
    assert_eq!(s.data.len(), 516);
    assert_eq!(s.data[200], 200u8 as i8);
}

#[test]
fn channel_period_lookup() {
    let table = build_period_table();
    assert_eq!(table[0][0], 1712);
    assert_eq!(table[0][59], 57);
    let mut c = Channel::new();
    assert_eq!(c.get_period(&table, 0, 0), 0);
    c.set_period(&table, 0, 0);
    assert_eq!(c.period, 0);
    c.note = 25;
    assert_eq!(c.get_period(&table, 0, 0), 428);
    assert_eq!(c.get_period(&table, 12, 0), 214);
    // finetune +8 steps past 7 carries into the next semitone
    c.fine_tune = 7;
    assert_eq!(c.get_period(&table, 0, 1), table[8][25] as usize);
    assert_eq!(c.get_period(&table, 0, 9), table[0][25] as usize);
    c.fine_tune = -8;
    assert_eq!(c.get_period(&table, 0, -1), table[7][23] as usize);
    c.note = 60;
    c.fine_tune = 0;
    assert_eq!(c.get_period(&table, 15, 0), 57);
    c.set_period(&table, 0, 0);
    assert_eq!(c.period, 57);
}

#[test]
fn modulation_table_shapes() {
    let t = build_vib_table();
    assert_eq!(t.len(), 3);
    assert_eq!(t[0][0][0], 0);
    assert_eq!(t[0][14][50], (15.5f64 * (50.0f64 / 32.0).sin()).floor() as i8);
    assert_eq!(t[1][0][0], 1);
    assert_eq!(t[1][0][63], -2);
    assert_eq!(t[2][3][10], 4);
    assert_eq!(t[2][3][40], -5);
    assert_eq!(vib_entry(1, 14, 31), 0);
    for a in 0..15 {
        for x in 0..64 {
            let s = (a as f64 + 1.5) * (x as f64 / 32.0).sin();
            assert_eq!(t[0][a][x] as f64, s.floor());
            let r = (a as f64 + 1.5) * ((63 - x) as f64 / 31.5 - 1.0);
            assert_eq!(t[1][a][x] as f64, r.floor());
        }
    }
    for ft in 0..16usize {
        let rft = -(if ft <= 8 { ft as f64 } else { ft as f64 - 16.0 });
        let fac = 2f64.powf(rft / 192.0);
        let p = build_period_table();
        for i in 0..60 {
            assert_eq!(p[ft][i] as f64, (base_period_of(i + 1) as f64 * fac).floor());
        }
    }
}

#[test]
fn clamp_limits() {
    assert_eq!(clamp(-5, 0, 64), 0);
    assert_eq!(clamp(70, 0, 64), 64);
    assert_eq!(clamp(30, 0, 64), 30);
}

#[test]
fn render_budget_is_kept() {
    let mut p = ModPlayer::load(vec![0u8; 2108]).unwrap();
    run_frames(&mut p, 1);
    assert_eq!(p.tr_counter, 959);
    run_frames(&mut p, 500);
    assert_eq!(p.tr_counter, 459);
    run_frames(&mut p, 459);
    assert_eq!(p.tr_counter, 0);
    assert_eq!(p.cur_tick, 1);
    run_frames(&mut p, 10);
    assert_eq!(p.cur_tick, 2);
    assert_eq!(p.tr_counter, 950);
}

#[test]
fn volume_slide_and_cut() {
    let mut m = module_with_sample(0, 0);
    // note with sample 1 (volume 64), volume slide down by 4 per tick
    set_cell(&mut m, 15, 0, 0, [0x01, 0xAC, 0x1A, 0x04]);
    let mut p = ModPlayer::load(m).unwrap();
    run_frames(&mut p, 1 + 960 * 5);
    assert_eq!(p.channels[0].volume, 64 - 4 * 5);
    assert_eq!(p.voices[0].volume, 44);
}

#[test]
fn slides_clamp_period() {
    let mut m = module_with_sample(0, 0);
    // period 428, slide up by 0xFF per tick
    set_cell(&mut m, 15, 0, 0, [0x01, 0xAC, 0x11, 0xFF]);
    let mut p = ModPlayer::load(m).unwrap();
    run_frames(&mut p, 1 + 960 * 2);
    assert_eq!(p.channels[0].period, 113);
    let mut m = module_with_sample(0, 0);
    set_cell(&mut m, 15, 0, 0, [0x01, 0xAC, 0x12, 0xFF]);
    let mut p = ModPlayer::load(m).unwrap();
    run_frames(&mut p, 1 + 960 * 2);
    assert_eq!(p.channels[0].period, 856);
}

#[test]
fn period_offsets_of_any_size() {
    let table = build_period_table();
    let mut c = Channel::new();
    assert_eq!(c.get_period(&table, -1000, 5000), 0);
    c.note = 25;
    // twelve semitones down doubles the period
    assert_eq!(c.get_period(&table, -12, 0), 856);
    // sixteen finetune steps are one semitone
    assert_eq!(c.get_period(&table, 0, 16), c.get_period(&table, 1, 0));
    assert_eq!(c.get_period(&table, 3, -32), c.get_period(&table, 1, 0));
    // far past either end the note index is clamped
    assert_eq!(c.get_period(&table, -100_000, 0), 1712);
    assert_eq!(c.get_period(&table, 100_000, 0), 57);
    let mut last = usize::MAX;
    for o in -70..70isize {
        let p = c.get_period(&table, o, 3);
        assert!(p <= last);
        last = p;
    }
}

#[test]
fn trigger_offset_past_the_end() {
    let mut v = Voice::new();
    v.trigger(2, 100, 2, 1_000_000);
    assert_eq!(v.sample, Some(2));
    assert_eq!(v.pos >> 16, 99);
    v.trigger(2, 100, 2, 40);
    assert_eq!(v.pos, 40 << 16);
}

#[test]
fn tick_applies_the_first_row() {
    let mut m = blank_module(15);
    set_cell(&mut m, 15, 0, 0, [0, 0, 0x0F, 0x21]);
    let mut p = ModPlayer::load(m).unwrap();
    p.tick();
    assert_eq!(p.tick_rate, 120000 / 33);
    assert_eq!(p.speed, 6);
    assert_eq!(p.cur_tick, 1);
}
