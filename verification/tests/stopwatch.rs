//! The stopwatch.

use shader_program::stopwatch::Stopwatch;
use std::time::{Duration, Instant};

#[test]
fn new_stopwatch_has_run_for_no_time_to_speak_of() {
    let stopwatch = Stopwatch::new();
    assert!(stopwatch.elapsed_millis() < 10_000);
}

#[test]
fn elapsed_time_does_not_go_back() {
    let stopwatch = Stopwatch::new();
    let first = stopwatch.elapsed();
    let second = stopwatch.elapsed();
    assert!(second >= first);
    assert!(stopwatch.elapsed_millis() >= first.as_millis());
}

#[test]
fn elapsed_millis_counts_up_with_the_clock() {
    let stopwatch = Stopwatch::new();
    let mut millis = stopwatch.elapsed_millis();
    let mut readings = 0u64;
    while millis < 30 {
        let next = stopwatch.elapsed_millis();
        assert!(next >= millis);
        millis = next;
        readings += 1;
    }
    assert!(readings > 0);
    assert!(millis < 10_000);
    assert!(stopwatch.elapsed() >= Duration::from_millis(30));
}

#[test]
fn reset_starts_the_count_again() {
    let mut stopwatch = Stopwatch::new();
    while stopwatch.elapsed_millis() < 40 {}
    let before = stopwatch.elapsed();
    stopwatch.reset();
    let after = stopwatch.elapsed();
    assert!(before >= Duration::from_millis(40));
    assert!(after < before);
}

fn wait_millis(millis: u64) -> Instant {
    let from = Instant::now();
    while from.elapsed() < Duration::from_millis(millis) {}
    from
}

#[test]
fn stopwatch_counts_from_the_reading_it_was_given() {
    let reading = wait_millis(25);
    let stopwatch = Stopwatch::started_at(reading);
    assert_eq!(stopwatch.start(), reading);
    assert!(stopwatch.elapsed() >= Duration::from_millis(25));
    assert!(stopwatch.elapsed_millis() >= 25);
    assert!(stopwatch.elapsed() <= reading.elapsed());
}

#[test]
fn restart_replaces_the_reading() {
    let early = wait_millis(25);
    let late = Instant::now();
    let mut stopwatch = Stopwatch::started_at(late);
    assert_eq!(stopwatch.start(), late);
    stopwatch.restart_at(early);
    assert_eq!(stopwatch.start(), early);
    assert!(stopwatch.elapsed() >= Duration::from_millis(25));
    stopwatch.restart_at(late);
    assert_eq!(stopwatch.start(), late);
}

#[test]
fn new_stopwatch_starts_at_a_reading_taken_during_the_call() {
    let before = Instant::now();
    let stopwatch = Stopwatch::new();
    let after = Instant::now();
    assert!(before <= stopwatch.start());
    assert!(stopwatch.start() <= after);
}

#[test]
fn reset_takes_a_reading_during_the_call() {
    let mut stopwatch = Stopwatch::new();
    let first = stopwatch.start();
    wait_millis(25);
    let before = Instant::now();
    stopwatch.reset();
    let after = Instant::now();
    assert!(before <= stopwatch.start());
    assert!(stopwatch.start() <= after);
    assert!(stopwatch.start() >= first + Duration::from_millis(25));
}

#[test]
fn elapsed_is_measured_from_the_stopwatch_own_start() {
    let mut stopwatch = Stopwatch::new();
    wait_millis(25);
    stopwatch.reset();
    let start = stopwatch.start();
    let low = start.elapsed();
    let measured = stopwatch.elapsed();
    let high = start.elapsed();
    assert!(low <= measured);
    assert!(measured <= high);
    let millis = stopwatch.elapsed_millis();
    assert!(millis >= measured.as_millis());
    assert!(millis <= start.elapsed().as_millis());
}
