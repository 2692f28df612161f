use randomizer_core::{Config, SpeedRange};

#[test]
fn normalize_swaps_inverted_reduce() {
    let mut c = Config::default();
    c.speed_reduce = SpeedRange { min: 50_000, max: 30_000 };
    c.normalize();
    assert_eq!(c.speed_reduce, SpeedRange { min: 30_000, max: 50_000 });
}

#[test]
fn normalize_keeps_ordered_pairs_and_other_fields() {
    let mut c = Config::default();
    c.volume = 42;
    c.normalize();
    assert_eq!(c.speed_start, SpeedRange { min: 4_500_000, max: 5_000_000 });
    assert_eq!(c.speed_stop, SpeedRange { min: 250_000, max: 500_000 });
    assert_eq!(c.speed_slow_reduce, SpeedRange { min: 1_000, max: 10_000 });
    assert_eq!(c.volume, 42);
    assert_eq!(c.reverse_chance, 250_000);
}

#[test]
fn default_values() {
    let c = Config::default();
    assert!(c.music);
    assert!(!c.start_fullscreen);
    assert_eq!(c.volume, 100);
    assert_eq!(c.audio_device, "");
    assert_eq!(c.speed_slow_limit, 1_000_000);
    assert_eq!(c.speed_slow_reduce, SpeedRange { min: 10_000, max: 1_000 });
}

#[test]
fn range_sample_stays_in_range() {
    let r = SpeedRange::new(10, 20);
    for _ in 0..500 {
        let v = r.sample();
        assert!((10..20).contains(&v));
    }
    let point = SpeedRange::new(7, 7);
    assert_eq!(point.sample(), 7);
}

#[test]
fn range_sample_varies() {
    let r = SpeedRange::new(0, 1_000_000);
    let first = r.sample();
    assert!((0..50).any(|_| r.sample() != first));
}

#[test]
fn config_samplers() {
    let mut c = Config::default();
    c.normalize();
    for _ in 0..100 {
        assert!((30_000..50_000).contains(&c.speed_reduce()));
        assert!((1_000..10_000).contains(&c.speed_slow_reduce()));
        assert!((4_500_000..5_000_000).contains(&c.speed_start()));
        assert!((250_000..500_000).contains(&c.speed_stop()));
    }
}

#[test]
fn decay_range_by_speed() {
    let mut c = Config::default();
    c.normalize();
    assert_eq!(c.decay_range(999_999), SpeedRange { min: 1_000, max: 10_000 });
    assert_eq!(c.decay_range(1_000_000), SpeedRange { min: 30_000, max: 50_000 });
}

#[test]
fn normalized_pair() {
    assert_eq!(SpeedRange::new(5, 3).normalized(), SpeedRange::new(3, 5));
    assert_eq!(SpeedRange::new(3, 5).normalized(), SpeedRange::new(3, 5));
}
