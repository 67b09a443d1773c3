use hardkick::voice::{OnsetRamp, PlayState, TriggerScheduler, DECLICK_LEN};

#[test]
fn trigger_on_silent_voice_fires_at_once() {
    let mut s: TriggerScheduler<f32> = TriggerScheduler::new();
    assert_eq!(s.schedule_trigger(0.7, false), Some(0.7));
    assert!(!s.is_fading());
    let out = s.tick();
    assert_eq!(out.declick_gain, None);
    assert_eq!(out.fire, None);
}

#[test]
fn retrigger_fades_out_then_fires() {
    let mut s: TriggerScheduler<f32> = TriggerScheduler::new();
    assert_eq!(s.schedule_trigger(0.5, true), None);
    assert!(s.is_fading());
    for i in 0..DECLICK_LEN {
        let out = s.tick();
        assert_eq!(out.declick_gain, Some(DECLICK_LEN - i));
        if i + 1 == DECLICK_LEN {
            assert_eq!(out.fire, Some(0.5));
        } else {
            assert_eq!(out.fire, None);
        }
    }
    assert!(!s.is_fading());
    let out = s.tick();
    assert_eq!(out.declick_gain, None);
    assert_eq!(out.fire, None);
}

#[test]
fn retrigger_during_fade_keeps_fade_and_latest_velocity() {
    let mut s: TriggerScheduler<u8> = TriggerScheduler::new();
    assert_eq!(s.schedule_trigger(10, true), None);
    for _ in 0..10 {
        s.tick();
    }
    assert_eq!(s.schedule_trigger(20, true), None);
    let out = s.tick();
    assert_eq!(out.declick_gain, Some(DECLICK_LEN - 10));
    let mut fired = Vec::new();
    let mut n = 1;
    while s.is_fading() {
        if let Some(v) = s.tick().fire {
            fired.push(v);
        }
        n += 1;
    }
    assert_eq!(n, DECLICK_LEN - 10);
    assert_eq!(fired, vec![20]);
}

#[test]
fn reset_drops_pending_trigger() {
    let mut s: TriggerScheduler<u8> = TriggerScheduler::new();
    s.schedule_trigger(1, true);
    s.reset();
    for _ in 0..(2 * DECLICK_LEN) {
        let out = s.tick();
        assert_eq!(out.fire, None);
        assert_eq!(out.declick_gain, None);
    }
}

#[test]
fn onset_ramp_is_linear_then_unity() {
    let mut r = OnsetRamp::new();
    assert_eq!(r.next_gain(), None);
    r.start(4);
    assert_eq!(r.next_gain(), Some((0, 4)));
    assert_eq!(r.next_gain(), Some((1, 4)));
    assert_eq!(r.next_gain(), Some((2, 4)));
    assert_eq!(r.next_gain(), Some((3, 4)));
    assert_eq!(r.next_gain(), None);
    assert_eq!(r.next_gain(), None);
}

#[test]
fn onset_ramp_restart_and_reset() {
    let mut r = OnsetRamp::new();
    r.start(66);
    for _ in 0..10 {
        r.next_gain();
    }
    r.start(2);
    assert_eq!(r.next_gain(), Some((0, 2)));
    r.reset();
    assert_eq!(r.next_gain(), None);
    r.start(0);
    assert_eq!(r.next_gain(), None);
}

#[test]
fn play_state_reports_rising_edges_only() {
    let mut p = PlayState::new();
    assert!(!p.update(false));
    assert!(p.update(true));
    assert!(!p.update(true));
    assert!(!p.update(false));
    assert!(p.update(true));
}
