use embassy_time::Duration;
use sensor_node::average::Mean;
use sensor_node::encoder::{reading, Encoder, CALIBRATION, DEBOUNCE_MS};
use sensor_node::replay::Edge;

/// Clock ticks in `millis` milliseconds, at the tick rate of the clock crate.
fn ticks(millis: u64) -> u64 {
    Duration::from_millis(millis).as_ticks()
}

fn edge(is_high: bool, at_ms: u64) -> Edge {
    Edge { is_high, now: ticks(at_ms) }
}

#[test]
fn constants_are_twenty_milliseconds_and_two_thousand() {
    assert_eq!(DEBOUNCE_MS, 20);
    assert_eq!(CALIBRATION, 2000);
}

#[test]
fn reading_is_calibration_over_elapsed_rounded_down() {
    assert_eq!(reading(20), 100);
    assert_eq!(reading(21), 95);
    assert_eq!(reading(40), 50);
    assert_eq!(reading(41), 48);
    assert_eq!(reading(300), 6);
    assert_eq!(reading(1000), 2);
    assert_eq!(reading(1001), 1);
    assert_eq!(reading(2000), 1);
}

#[test]
fn reading_is_floored_at_one() {
    assert_eq!(reading(2001), 1);
    assert_eq!(reading(5000), 1);
    assert_eq!(reading(u64::MAX), 1);
}

#[test]
fn reading_never_grows_with_elapsed_time() {
    let mut last = reading(20);
    for elapsed in 21..5000u64 {
        let value = reading(elapsed);
        assert!(value <= last);
        assert!(value >= 1);
        last = value;
    }
}

#[test]
fn new_encoder_remembers_creation_time_and_low_level() {
    let encoder = Encoder::new(1234);
    assert_eq!(encoder.last_rising(), 1234);
    assert!(!encoder.level_high());
}

#[test]
fn observe_drops_edges_within_debounce_time() {
    let mut encoder = Encoder::new(0);
    for elapsed in 0..20u64 {
        assert_eq!(encoder.observe(true, 1000 + elapsed, elapsed), None);
        assert_eq!(encoder.observe(false, 1000 + elapsed, elapsed), None);
        assert_eq!(encoder.last_rising(), 0);
        assert!(!encoder.level_high());
    }
}

#[test]
fn observe_accepts_rising_edge_at_debounce_time() {
    let mut encoder = Encoder::new(0);
    assert_eq!(encoder.observe(true, 777, 20), Some(100));
    assert_eq!(encoder.last_rising(), 777);
    assert!(encoder.level_high());
}

#[test]
fn observe_ignores_rising_edge_while_high() {
    let mut encoder = Encoder::new(0);
    assert_eq!(encoder.observe(true, 100, 40), Some(50));
    assert_eq!(encoder.observe(true, 200, 40), None);
    assert_eq!(encoder.last_rising(), 100);
    assert!(encoder.level_high());
}

#[test]
fn observe_falling_edge_rearms_without_reading() {
    let mut encoder = Encoder::new(0);
    assert_eq!(encoder.observe(true, 100, 40), Some(50));
    assert_eq!(encoder.observe(false, 150, 25), None);
    assert_eq!(encoder.last_rising(), 100);
    assert!(!encoder.level_high());
    assert_eq!(encoder.observe(true, 200, 100), Some(20));
    assert_eq!(encoder.last_rising(), 200);
}

#[test]
fn on_edge_converts_ticks_to_milliseconds() {
    let mut encoder = Encoder::new(ticks(5));
    assert_eq!(encoder.on_edge(true, ticks(45)), Some(50));
    assert_eq!(encoder.last_rising(), ticks(45));
    assert!(encoder.level_high());
}

#[test]
fn on_edge_drops_edge_nineteen_milliseconds_after_rising() {
    let mut encoder = Encoder::new(0);
    assert_eq!(encoder.on_edge(true, ticks(19)), None);
    assert_eq!(encoder.on_edge(false, ticks(19)), None);
    assert_eq!(encoder.last_rising(), 0);
    assert!(!encoder.level_high());
    assert_eq!(encoder.on_edge(true, ticks(20)), Some(100));
}

#[test]
fn rising_edge_every_forty_milliseconds_reads_fifty_each_time() {
    let mut encoder = Encoder::new(0);
    for round in 1..=25u64 {
        let rising = 40 * round;
        assert_eq!(encoder.on_edge(true, ticks(rising)), Some(50));
        assert_eq!(encoder.last_rising(), ticks(rising));
        assert_eq!(encoder.on_edge(false, ticks(rising + 20)), None);
        assert!(!encoder.level_high());
    }
}

#[test]
fn bounced_falling_edge_keeps_the_line_high() {
    let mut encoder = Encoder::new(0);
    assert_eq!(encoder.on_edge(true, ticks(40)), Some(50));
    assert_eq!(encoder.on_edge(false, ticks(50)), None);
    assert!(encoder.level_high());
    assert_eq!(encoder.on_edge(true, ticks(80)), None);
    assert_eq!(encoder.last_rising(), ticks(40));
}

#[test]
fn slow_wheel_reads_one() {
    let mut encoder = Encoder::new(0);
    assert_eq!(encoder.on_edge(true, ticks(60_000)), Some(1));
}

#[test]
fn sample_one_skips_noise_and_stops_at_first_reading() {
    let mut encoder = Encoder::new(0);
    let edges = [
        edge(true, 5),
        edge(false, 7),
        edge(true, 19),
        edge(false, 30),
        edge(true, 100),
        edge(false, 130),
        edge(true, 200),
    ];
    assert_eq!(encoder.sample_one(&edges), (Some(20), 5));
    assert_eq!(encoder.last_rising(), ticks(100));
    assert_eq!(encoder.sample_one(&edges[5..]), (Some(20), 2));
    assert_eq!(encoder.last_rising(), ticks(200));
}

#[test]
fn sample_one_without_reading_takes_every_edge() {
    let mut encoder = Encoder::new(0);
    let edges = [edge(true, 3), edge(false, 9), edge(true, 15), edge(false, 40)];
    assert_eq!(encoder.sample_one(&edges), (None, 4));
    assert_eq!(encoder.last_rising(), 0);
    assert!(!encoder.level_high());
    assert_eq!(encoder.sample_one(&[]), (None, 0));
}

#[test]
fn sample_one_sustained_high_gives_one_reading() {
    let mut encoder = Encoder::new(0);
    let edges = [edge(true, 50), edge(true, 100), edge(true, 150), edge(true, 400)];
    assert_eq!(encoder.sample_one(&edges), (Some(40), 1));
    assert_eq!(encoder.sample_one(&edges[1..]), (None, 3));
    assert_eq!(encoder.last_rising(), ticks(50));
}

#[test]
fn sample_average_is_sum_over_count_in_call_order() {
    let mut encoder = Encoder::new(0);
    let edges = [
        edge(true, 20),
        edge(false, 40),
        edge(true, 60),
        edge(false, 80),
        edge(true, 160),
        edge(false, 200),
        edge(true, 2160),
        edge(false, 2200),
        edge(true, 2240),
    ];
    // Readings in order: 2000/20, 2000/40, 2000/100, 2000/2000.
    assert_eq!(encoder.sample_average(&edges, 4), Some(Mean { sum: 100 + 50 + 20 + 1, count: 4 }));
    assert_eq!(encoder.last_rising(), ticks(2160));
    assert!(encoder.level_high());
}

#[test]
fn sample_average_of_forty_millisecond_pulses_is_fifty() {
    let mut encoder = Encoder::new(0);
    let mut edges = Vec::new();
    for round in 1..=4u64 {
        edges.push(edge(true, 40 * round));
        edges.push(edge(false, 40 * round + 20));
    }
    let mean = encoder.sample_average(&edges, 4).unwrap();
    assert_eq!(mean, Mean { sum: 200, count: 4 });
    assert_eq!(mean.sum as f64 / mean.count as f64, 50.0);
}

#[test]
fn sample_average_of_one_is_the_reading() {
    let mut encoder = Encoder::new(0);
    let edges = [edge(true, 30)];
    assert_eq!(encoder.sample_average(&edges, 1), Some(Mean { sum: 66, count: 1 }));
}

#[test]
fn sample_average_runs_out_of_edges() {
    let mut encoder = Encoder::new(0);
    let edges = [edge(true, 40), edge(false, 60), edge(true, 80), edge(false, 100)];
    assert_eq!(encoder.sample_average(&edges, 3), None);
    assert_eq!(encoder.last_rising(), ticks(80));
    assert!(!encoder.level_high());
}

#[test]
fn sample_average_of_nothing_has_no_value() {
    let mut encoder = Encoder::new(0);
    let edges = [edge(true, 40)];
    let mean = encoder.sample_average(&edges, 0).unwrap();
    assert_eq!(mean, Mean { sum: 0, count: 0 });
    assert!((mean.sum as f64 / mean.count as f64).is_nan());
    assert_eq!(encoder.last_rising(), 0);
}
