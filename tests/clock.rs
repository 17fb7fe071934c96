use whisper::clock::{resolve_sample_rate, Clock, Phase};

#[test]
fn clock_starts_at_zero() {
    let c = Clock::new(Some(96000));
    assert_eq!(c.sample_rate(), 96000);
    assert_eq!(c.elapsed_samples(), 0);
    assert_eq!(c.current_phase(), Phase { samples: 0, rate: 96000 });
}

#[test]
fn advance_adds_frames() {
    let mut c = Clock::new(None);
    c.advance(5);
    c.advance(7);
    assert_eq!(c.elapsed_samples(), 12);
    assert_eq!(c.phase_at(3), Phase { samples: 15, rate: 44100 });
}

#[test]
fn counter_wraps_past_u64_max() {
    let mut c = Clock::new(None);
    c.advance(u64::MAX);
    assert_eq!(c.elapsed_samples(), u64::MAX);
    assert_eq!(c.phase_at(1).samples, 0);
    c.advance(3);
    assert_eq!(c.elapsed_samples(), 2);
}

#[test]
fn resolve_rate_rules() {
    assert_eq!(resolve_sample_rate(None), 44100);
    assert_eq!(resolve_sample_rate(Some(0)), 44100);
    assert_eq!(resolve_sample_rate(Some(1)), 1);
    assert_eq!(resolve_sample_rate(Some(u32::MAX)), u32::MAX);
}
