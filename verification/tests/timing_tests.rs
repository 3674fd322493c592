use quizbot::timing::{answer_pause_ms, restart_pause_ms, TimingConfig};

#[test]
fn standard_config_matches_the_stock_pacing() {
    let cfg = TimingConfig::standard();
    assert_eq!(cfg.min_answer_ms, 986);
    assert_eq!(cfg.max_answer_ms, 4465);
    assert_eq!(cfg.min_restart_ms, 2178);
    assert_eq!(cfg.max_restart_ms, 9653);
}

#[test]
fn every_pause_lies_within_its_bounds() {
    let cfg = TimingConfig::standard();
    for _ in 0..200 {
        let a = answer_pause_ms(&cfg);
        assert!(cfg.min_answer_ms <= a && a <= cfg.max_answer_ms);
        let r = restart_pause_ms(&cfg);
        assert!(cfg.min_restart_ms <= r && r <= cfg.max_restart_ms);
    }
}

#[test]
fn a_degenerate_range_pins_the_pause() {
    let cfg = TimingConfig {
        min_answer_ms: 250,
        max_answer_ms: 250,
        min_restart_ms: 400,
        max_restart_ms: 400,
    };
    assert_eq!(answer_pause_ms(&cfg), 250);
    assert_eq!(restart_pause_ms(&cfg), 400);
}
