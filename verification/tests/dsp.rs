use hardkick::dsp::distortion::Shaper;
use hardkick::dsp::limiter::{DelayLine, LOOKAHEAD};
use hardkick::dsp::noise::{Noise, DEFAULT_SEED};
use hardkick::dsp::oversample::{History, OsFactor, PHASE_LEN};

fn xorshift32(mut x: u32) -> u32 {
    x ^= x << 13;
    x ^= x >> 17;
    x ^= x << 5;
    x
}

#[test]
fn noise_default_sequence_is_xorshift32_of_seed() {
    let mut n = Noise::default();
    assert_eq!(n.next_u32(), 1359758873);
    assert_eq!(n.next_u32(), 3761132862);
    assert_eq!(n.next_u32(), 2075758394);
}

#[test]
fn noise_steps_differ_from_state() {
    // Each output is the xorshift of the previous one, never the previous one itself.
    let mut n = Noise::default();
    let mut prev = DEFAULT_SEED;
    for _ in 0..1000 {
        let v = n.next_u32();
        assert_ne!(v, prev);
        assert_eq!(v, xorshift32(prev));
        prev = v;
    }
}

#[test]
fn noise_never_reaches_zero() {
    let mut n = Noise::default();
    for _ in 0..100_000 {
        assert_ne!(n.next_u32(), 0);
    }
}

#[test]
fn delay_line_returns_fill_first() {
    let mut d = DelayLine::new(0.0_f32);
    for i in 0..LOOKAHEAD {
        assert_eq!(d.process(i as f32 + 1.0), 0.0);
    }
}

#[test]
fn delay_line_delays_by_exactly_lookahead() {
    let mut d = DelayLine::new(-1_i64);
    let n = 3 * LOOKAHEAD + 17;
    for k in 0..n {
        let out = d.process(k as i64);
        if k < LOOKAHEAD {
            assert_eq!(out, -1);
        } else {
            assert_eq!(out, (k - LOOKAHEAD) as i64);
        }
    }
}

#[test]
fn delay_line_reset_clears_window() {
    let mut d = DelayLine::new(0_u32);
    for k in 0..100_u32 {
        d.process(k + 1);
    }
    d.reset(7);
    for _ in 0..LOOKAHEAD {
        assert_eq!(d.process(9), 7);
    }
    assert_eq!(d.process(9), 9);
}

#[test]
fn history_newest_first() {
    let mut h = History::new(0_i32);
    for k in 1..=5 {
        h.push(k);
    }
    assert_eq!(h.get(0), 5);
    assert_eq!(h.get(1), 4);
    assert_eq!(h.get(4), 1);
    assert_eq!(h.get(5), 0);
    assert_eq!(h.get(PHASE_LEN - 1), 0);
}

#[test]
fn history_drops_oldest() {
    let mut h = History::new(0_i32);
    for k in 1..=(PHASE_LEN as i32 + 3) {
        h.push(k);
    }
    for k in 0..PHASE_LEN {
        assert_eq!(h.get(k), PHASE_LEN as i32 + 3 - k as i32);
    }
    h.reset(-2);
    for k in 0..PHASE_LEN {
        assert_eq!(h.get(k), -2);
    }
}

#[test]
fn enums_compare_by_variant() {
    assert_eq!(Shaper::Tube, Shaper::Tube);
    assert_ne!(Shaper::Hard, Shaper::Fold);
    assert_eq!(OsFactor::X2, OsFactor::X2);
    assert_ne!(OsFactor::Off, OsFactor::X4);
}
