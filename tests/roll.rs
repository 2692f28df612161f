use randomizer_core::{
    window_indices, Config, Direction, Randomizer, RollError, RollSession, SoundPool, SpeedRange,
    TickOutcome, SPEED_SCALE,
};

fn names(n: usize) -> Vec<String> {
    (0..n).map(|i| format!("item{i}")).collect()
}

fn session(n: usize, speed: u32, direction: Direction) -> RollSession {
    RollSession::new("list".to_string(), names(n), speed, direction).unwrap()
}

fn normalized_default() -> Config {
    let mut c = Config::default();
    c.normalize();
    c
}

#[test]
fn window_indices_wrap_below_zero() {
    assert_eq!(window_indices(0, 7), vec![5, 6, 0, 1, 2]);
    assert_eq!(window_indices(1, 7), vec![6, 0, 1, 2, 3]);
}

#[test]
fn window_indices_wrap_past_end() {
    assert_eq!(window_indices(6, 7), vec![4, 5, 6, 0, 1]);
    assert_eq!(window_indices(5, 7), vec![3, 4, 5, 6, 0]);
}

#[test]
fn window_indices_tiny_lists() {
    assert_eq!(window_indices(0, 1), vec![0, 0, 0, 0, 0]);
    assert_eq!(window_indices(0, 2), vec![0, 1, 0, 1, 0]);
    assert_eq!(window_indices(1, 2), vec![1, 0, 1, 0, 1]);
}

#[test]
fn window_indices_always_valid() {
    for total in 1..40usize {
        for center in 0..total {
            let w = window_indices(center, total);
            assert_eq!(w.len(), 5);
            assert!(w.iter().all(|&i| i < total));
            assert_eq!(w[2], center);
        }
    }
}

#[test]
fn window_at_origin() {
    let s = session(5, 0, Direction::Forward);
    assert_eq!(s.window(), vec!["item3", "item4", "item0", "item1", "item2"]);
}

#[test]
fn window_follows_position_with_rounding() {
    let mut s = session(10, 0, Direction::Forward);
    s.position = 3 * SPEED_SCALE as u128 + 499_999;
    assert_eq!(s.center_index(), 3);
    s.position = 3 * SPEED_SCALE as u128 + 500_000;
    assert_eq!(s.center_index(), 4);
    assert_eq!(s.window(), vec!["item2", "item3", "item4", "item5", "item6"]);
    s.position = 9 * SPEED_SCALE as u128 + 600_000;
    assert_eq!(s.center_index(), 0);
}

#[test]
fn advance_forward_wraps_position() {
    let mut s = session(3, 2_500_000, Direction::Forward);
    s.position = 2 * SPEED_SCALE as u128;
    let out = s.advance(100_000, None);
    assert_eq!(out, TickOutcome::Continue);
    assert_eq!(s.position, 1_500_000);
    assert_eq!(s.speed, 2_400_000);
}

#[test]
fn advance_reverse_wraps_below_zero() {
    let mut s = session(4, 1_000_000, Direction::Reverse);
    let out = s.advance(0, None);
    assert_eq!(out, TickOutcome::Continue);
    assert_eq!(s.position, 3 * SPEED_SCALE as u128);
    assert_eq!(s.center_index(), 3);
}

#[test]
fn advance_stops_below_zero() {
    let mut s = session(4, 30_000, Direction::Forward);
    assert_eq!(s.advance(30_000, None), TickOutcome::Continue);
    assert_eq!(s.speed, 0);
    assert_eq!(s.advance(1, None), TickOutcome::Stopped);
    assert_eq!(s.speed, -1);
}

#[test]
fn advance_with_stop_caps_speed() {
    let mut s = session(4, 4_000_000, Direction::Forward);
    assert_eq!(s.advance(40_000, Some(300_000)), TickOutcome::Continue);
    assert_eq!(s.speed, 300_000);
    // a cap above the decayed speed leaves it
    assert_eq!(s.advance(40_000, Some(400_000)), TickOutcome::Continue);
    assert_eq!(s.speed, 260_000);
}

#[test]
fn stop_request_shortens_roll() {
    let decay = 40_000;
    let mut free = session(6, 4_800_000, Direction::Forward);
    let mut stopped = free.clone();
    let mut free_ticks = 0;
    while free.advance(decay, None) == TickOutcome::Continue {
        free_ticks += 1;
    }
    let mut stopped_ticks = 0;
    for _ in 0..10 {
        stopped_ticks += 1;
        assert_eq!(stopped.advance(decay, None), TickOutcome::Continue);
    }
    loop {
        let before = stopped.speed;
        let out = stopped.advance(decay, Some(250_000));
        assert!(stopped.speed <= 250_000);
        assert!(stopped.speed <= before - decay as i64);
        if out == TickOutcome::Stopped {
            break;
        }
        stopped_ticks += 1;
    }
    assert!(stopped_ticks < free_ticks);
}

#[test]
fn start_on_empty_list_fails() {
    let c = normalized_default();
    let r = RollSession::start("empty".to_string(), Vec::new(), &c);
    assert_eq!(r.unwrap_err(), RollError::EmptyList);
}

#[test]
fn new_on_empty_list_fails() {
    let r = RollSession::new("empty".to_string(), Vec::new(), 10, Direction::Forward);
    assert_eq!(r.unwrap_err(), RollError::EmptyList);
}

#[test]
fn start_keeps_items_and_samples_speed() {
    let c = normalized_default();
    let items = names(20);
    let s = RollSession::start("l".to_string(), items.clone(), &c).unwrap();
    let mut got = s.items.clone();
    got.sort();
    let mut want = items;
    want.sort();
    assert_eq!(got, want);
    assert_eq!(s.position, 0);
    assert!(s.speed >= 4_500_000 && s.speed < 5_000_000);
    assert_eq!(s.list_name, "l");
}

fn plain_decay_config() -> Config {
    let mut c = Config::default();
    c.speed_start = SpeedRange::new(4_500_000, 5_000_000);
    c.speed_reduce = SpeedRange::new(30_000, 50_000);
    c.speed_slow_limit = 0;
    c.normalize();
    c
}

#[test]
fn roll_length_without_stop() {
    let c = plain_decay_config();
    for _ in 0..200 {
        let mut s = RollSession::start("l".to_string(), names(9), &c).unwrap();
        let mut ticks = 0;
        loop {
            ticks += 1;
            assert_eq!(s.window().len(), 5);
            if s.tick(&c, false) == TickOutcome::Stopped {
                break;
            }
        }
        assert!((90..=170).contains(&ticks), "ticks = {ticks}");
    }
}

#[test]
fn tick_decays_within_range() {
    let c = plain_decay_config();
    let mut s = session(5, 3_000_000, Direction::Forward);
    s.tick(&c, false);
    assert!(s.speed > 3_000_000 - 50_000 && s.speed <= 3_000_000 - 30_000);
}

#[test]
fn tick_uses_slow_range_below_limit() {
    let c = normalized_default();
    let mut s = session(5, 900_000, Direction::Forward);
    s.tick(&c, false);
    assert!(s.speed > 900_000 - 10_000 && s.speed <= 900_000 - 1_000);
}

#[test]
fn tick_with_stop_caps_at_stop_speed() {
    let c = normalized_default();
    let mut s = session(5, 4_000_000, Direction::Forward);
    s.tick(&c, true);
    assert!(s.speed >= 250_000 && s.speed < 500_000);
}

#[test]
fn reverse_frequency_matches_chance() {
    let mut c = normalized_default();
    c.reverse_chance = 250_000;
    let trials = 10_000;
    let reversed = (0..trials)
        .filter(|_| c.sample_direction() == Direction::Reverse)
        .count();
    let freq = reversed as f64 / trials as f64;
    assert!((0.20..=0.30).contains(&freq), "freq = {freq}");
}

#[test]
fn direction_extremes() {
    let mut c = normalized_default();
    c.reverse_chance = 0;
    assert!((0..200).all(|_| c.sample_direction() == Direction::Forward));
    c.reverse_chance = 1_000_000;
    assert!((0..200).all(|_| c.sample_direction() == Direction::Reverse));
    assert_eq!(c.direction_for_draw(999_999), Direction::Reverse);
    c.reverse_chance = 10;
    assert_eq!(c.direction_for_draw(9), Direction::Reverse);
    assert_eq!(c.direction_for_draw(10), Direction::Forward);
}

#[test]
fn randomizer_roll_on_empty_list_changes_nothing() {
    let mut r = Randomizer::new(Config::default(), SoundPool::new(vec![]), SoundPool::new(vec![]));
    r.stop_roll();
    let res = r.roll("none".to_string(), Vec::new());
    assert_eq!(res.unwrap_err(), RollError::EmptyList);
    assert!(r.stop.requested);
    assert!(r.current_list.is_none());
}

#[test]
fn randomizer_roll_clears_stop_and_sets_list() {
    let mut r = Randomizer::new(Config::default(), SoundPool::new(vec![]), SoundPool::new(vec![]));
    r.stop_roll();
    let (mut s, _) = r.roll("names".to_string(), names(4)).unwrap();
    assert!(!r.stop.requested);
    assert_eq!(r.current_list.as_deref(), Some("names"));
    let mut ticks = 0;
    while r.tick(&mut s) == TickOutcome::Continue {
        ticks += 1;
        if ticks == 5 {
            r.stop_roll();
        }
    }
    assert!(s.speed < 0);
}

#[test]
fn start_shuffles_items() {
    let c = normalized_default();
    let items = names(20);
    let reordered = (0..5).any(|_| {
        let s = RollSession::start("l".to_string(), items.clone(), &c).unwrap();
        s.items != items
    });
    assert!(reordered);
}
