use io_board::cpu::{load_permille, load_word, peak_tick_us, record_idle, CpuLoad, CpuMonitor, WINDOWS_PER_REPORT, WINDOW_MS};
use io_board::errors::{count, Counters, ErrorCounter};
use io_board::time::{Duration, Instant};

fn millis(ms: u64) -> Duration {
    Duration::from_millis(ms)
}

fn at_window(window: u64) -> Instant {
    Instant::from_millis(WINDOW_MS * window)
}

fn monitor_at(start: Instant) -> CpuMonitor {
    CpuMonitor::new(start, millis(20))
}

/// Runs one reporting period's worth of windows, each with `idle` of it spent asleep, and returns
/// what ended up published.
fn report(idle: Duration, work: Duration) -> (u16, u16) {
    let mut load = CpuLoad::new();
    let mut counters = Counters::new();
    let mut monitor = monitor_at(Instant::from_millis(0));
    for window in 1..=WINDOWS_PER_REPORT as u64 {
        record_idle(&mut load, idle);
        monitor.update(&mut load, &mut counters, work, at_window(window));
    }
    (load_word(&load), peak_tick_us(&load))
}

#[test]
fn a_board_that_never_sleeps_reads_fully_loaded() {
    let (load, _) = report(Duration::from_millis(0), Duration::from_millis(1));
    assert_eq!(load, 1000);
}

#[test]
fn a_board_that_sleeps_through_the_window_reads_idle() {
    let (load, _) = report(millis(WINDOW_MS), Duration::from_millis(1));
    assert_eq!(load, 0);
}

#[test]
fn a_quarter_of_the_window_awake_reads_a_quarter() {
    let (load, _) = report(millis(WINDOW_MS * 3 / 4), Duration::from_millis(1));
    assert_eq!(load, 250);
}

/// More idle than elapsed means the two clocks disagree, not that the board was more than
/// idle: report "nothing to do" rather than wrapping into a wildly loaded reading.
#[test]
fn more_idle_than_elapsed_clamps_to_zero() {
    let (load, _) = report(millis(WINDOW_MS * 2), Duration::from_millis(1));
    assert_eq!(load, 0);
}

#[test]
fn nothing_is_published_before_a_full_reporting_period() {
    let mut load = CpuLoad::new();
    let mut counters = Counters::new();

    let start = Instant::from_millis(0);
    let mut monitor = monitor_at(start);
    for window in 1..WINDOWS_PER_REPORT as u64 {
        monitor.update(&mut load, &mut counters, Duration::from_millis(1), at_window(window));
    }
    assert_eq!(load_permille(&load), None);
}

/// Both published numbers are the worst of the period, not the last of it.
#[test]
fn the_peak_is_what_gets_reported() {
    let mut load = CpuLoad::new();
    let mut counters = Counters::new();

    let start = Instant::from_millis(0);
    let mut monitor = monitor_at(start);
    for window in 1..=WINDOWS_PER_REPORT as u64 {
        // One busy window in five: idle for all of the others.
        let (idle, work) = if window == 2 {
            (Duration::from_millis(0), Duration::from_ticks(9000))
        } else {
            (millis(WINDOW_MS), Duration::from_ticks(100))
        };
        record_idle(&mut load, idle);
        monitor.update(&mut load, &mut counters, work, at_window(window));
    }
    assert_eq!(load_word(&load), 1000);
    assert_eq!(peak_tick_us(&load), 9000);
}

#[test]
fn an_iteration_longer_than_the_deadline_is_counted() {
    let mut load = CpuLoad::new();
    let mut counters = Counters::new();

    let start = Instant::from_millis(0);
    let mut monitor = monitor_at(start);
    monitor.update(&mut load, &mut counters, Duration::from_millis(19), start);
    assert_eq!(count(&counters, ErrorCounter::ControlTickOverrun), 0);
    monitor.update(&mut load, &mut counters, Duration::from_millis(21), start);
    assert_eq!(count(&counters, ErrorCounter::ControlTickOverrun), 1);
}
