use stopwatch::{format_ms, Duration, Stopwatch};

const MS: u64 = 1_000_000;

#[test]
fn fresh_watch_is_idle() {
    let sw = Stopwatch::new();
    assert!(!sw.is_running());
    assert_eq!(sw.elapsed_ms(), 0);
    assert_eq!(sw.elapsed_at(5 * MS), Duration::zero());
    let d: Stopwatch = Default::default();
    assert!(!d.is_running());
    assert_eq!(d.elapsed_ns(), 0);
}

#[test]
fn stop_and_start_at_one_reading_adds_nothing() {
    let mut sw = Stopwatch::new();
    sw.start_at(7 * MS);
    for _ in 0..1000i32 {
        sw.stop_at(7 * MS);
        sw.start_at(7 * MS);
    }
    assert_eq!(sw.elapsed_at(7 * MS).as_nanos(), 0);
    assert_eq!(sw.elapsed_at(9 * MS).as_millis(), 2);
}

#[test]
fn started_watch_measures_from_start() {
    let mut sw = Stopwatch::new();
    sw.start_at(3 * MS);
    assert_eq!(sw.elapsed_at(53 * MS).as_millis(), 50);
    assert_eq!(sw.elapsed_at(53 * MS).as_nanos(), 50 * MS);
}

#[test]
fn two_segments_add_up() {
    let mut sw = Stopwatch::new();
    sw.start_at(0);
    sw.stop_at(50 * MS);
    sw.start_at(80 * MS);
    assert_eq!(sw.elapsed_at(130 * MS).as_millis(), 100);
    sw.stop_at(130 * MS);
    assert_eq!(sw.elapsed_at(500 * MS).as_millis(), 100);
}

#[test]
fn reset_from_any_state() {
    let mut running = Stopwatch::new();
    running.start_at(0);
    running.reset();
    assert!(!running.is_running());
    assert_eq!(running.elapsed_at(10 * MS).as_nanos(), 0);

    let mut stopped = Stopwatch::new();
    stopped.start_at(0);
    stopped.stop_at(40 * MS);
    stopped.reset();
    assert!(!stopped.is_running());
    assert_eq!(stopped.elapsed_ms(), 0);
}

#[test]
fn restart_begins_a_fresh_measure() {
    let mut sw = Stopwatch::new();
    sw.start_at(0);
    sw.stop_at(30 * MS);
    sw.restart_at(100 * MS);
    assert!(sw.is_running());
    assert_eq!(sw.elapsed_at(100 * MS).as_nanos(), 0);
    assert_eq!(sw.elapsed_at(125 * MS).as_millis(), 25);
}

#[test]
fn split_moves_the_lap_boundary() {
    let mut sw = Stopwatch::new();
    sw.start_at(10 * MS);
    assert_eq!(sw.elapsed_split_at(60 * MS).as_millis(), 50);
    assert_eq!(sw.elapsed_split_at(110 * MS).as_millis(), 50);
    assert_eq!(sw.elapsed_at(110 * MS).as_millis(), 100);
}

#[test]
fn split_on_stopped_watch_is_zero() {
    let mut sw = Stopwatch::new();
    sw.start_at(0);
    sw.stop_at(20 * MS);
    assert_eq!(sw.elapsed_split_at(90 * MS).as_nanos(), 0);
    assert_eq!(sw.elapsed_split_ms(), 0);
    assert_eq!(sw.elapsed_split_ns(), 0);
    assert_eq!(sw.elapsed_at(90 * MS).as_millis(), 20);
    sw.start_at(100 * MS);
    assert_eq!(sw.elapsed_split_at(130 * MS).as_millis(), 30);
}

#[test]
fn stopping_twice_changes_nothing() {
    let mut sw = Stopwatch::new();
    sw.start_at(0);
    sw.stop_at(42 * MS);
    let first = sw.elapsed_at(50 * MS);
    sw.stop_at(60 * MS);
    assert_eq!(sw.elapsed_at(70 * MS), first);
    sw.stop();
    assert_eq!(sw.elapsed_ms(), 42);
}

#[test]
fn stopped_watch_keeps_its_total() {
    let mut sw = Stopwatch::new();
    sw.start_at(0);
    sw.stop_at(50 * MS);
    let ms = sw.elapsed_at(50 * MS).as_millis();
    assert!(35 <= ms && ms <= 65);
    assert_eq!(sw.elapsed_at(100 * MS).as_millis(), ms);
}

#[test]
fn start_while_running_keeps_the_segment() {
    let mut sw = Stopwatch::new();
    sw.start_at(10 * MS);
    sw.start_at(20 * MS);
    assert_eq!(sw.elapsed_at(30 * MS).as_millis(), 20);
}

#[test]
fn clock_going_back_counts_as_no_time() {
    let mut sw = Stopwatch::new();
    sw.start_at(100 * MS);
    assert_eq!(sw.elapsed_at(40 * MS).as_nanos(), 0);
    assert_eq!(sw.elapsed_split_at(40 * MS).as_nanos(), 0);
    sw.stop_at(40 * MS);
    assert_eq!(sw.elapsed_at(40 * MS).as_nanos(), 0);
}

#[test]
fn total_is_held_at_the_largest_value() {
    let mut sw = Stopwatch::new();
    sw.start_at(0);
    sw.stop_at(u64::MAX);
    sw.start_at(0);
    assert_eq!(sw.elapsed_at(10).as_nanos(), u64::MAX);
    sw.stop_at(10);
    assert_eq!(sw.elapsed_ns(), u64::MAX);
    assert_eq!(sw.elapsed_ms(), (u64::MAX / MS) as i64);
}

#[test]
fn copy_runs_on_its_own() {
    let mut a = Stopwatch::new();
    a.start_at(0);
    let mut b = a;
    b.stop_at(10 * MS);
    assert!(a.is_running());
    assert!(!b.is_running());
    assert_eq!(a.elapsed_at(30 * MS).as_millis(), 30);
    assert_eq!(b.elapsed_at(30 * MS).as_millis(), 10);
}

#[test]
fn duration_units() {
    let d = Duration::from_nanos(1_999_999);
    assert_eq!(d.as_nanos(), 1_999_999);
    assert_eq!(d.as_millis(), 1);
    assert_eq!(Duration::zero().as_millis(), 0);
}

#[test]
fn text_of_milliseconds() {
    assert_eq!(format_ms(0), "0ms");
    assert_eq!(format_ms(250), "250ms");
    assert_eq!(format_ms(1000), "1s 0ms");
    assert_eq!(format_ms(59_999), "59s 999ms");
    assert_eq!(format_ms(61_001), "1m 1s 1ms");
    assert_eq!(format_ms(3_600_000), "1h 0m 0s 0ms");
    assert_eq!(format_ms(3_723_004), "1h 2m 3s 4ms");
    assert_eq!(format_ms(90_061_010), "25h 1m 1s 10ms");
}

#[test]
fn text_of_a_watch() {
    let sw = Stopwatch::new();
    assert_eq!(sw.to_text(), "0ms");
    let mut stopped = Stopwatch::new();
    stopped.start_at(0);
    stopped.stop_at(61_500 * MS);
    assert_eq!(stopped.to_text(), "1m 1s 500ms");
}

#[test]
fn real_clock_moves_forward() {
    let sw = Stopwatch::start_new();
    let until = std::time::Instant::now() + std::time::Duration::from_millis(3);
    while std::time::Instant::now() < until {
        std::hint::spin_loop();
    }
    assert!(sw.elapsed_ns() >= 3 * MS);
    let mut lap = Stopwatch::start_new();
    assert!(lap.elapsed_split_ns() < 1000 * MS);
}
