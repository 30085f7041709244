use shell_core::history::{format_index, history_lines, record_text, should_record};
use shell_core::interrupt::InterruptBridge;
use shell_core::jobs::{JobPool, ReapEvent};

fn cv(s: &str) -> Vec<char> {
    s.chars().collect()
}

#[test]
fn reaping_removes_the_exited_pid() {
    let mut pool = JobPool::new();
    pool.track(41);
    pool.track(42);
    pool.track(43);
    let more = pool.apply_reap_event(ReapEvent::Reaped(42));
    assert!(more);
    assert_eq!(pool.jobs, vec![41, 43]);
}

#[test]
fn reaping_an_untracked_pid_changes_nothing_tracked() {
    let mut pool = JobPool::new();
    pool.track(7);
    let more = pool.apply_reap_event(ReapEvent::Reaped(99));
    assert!(more);
    assert_eq!(pool.jobs, vec![7]);
}

#[test]
fn nothing_ready_ends_the_sweep_without_change() {
    let mut pool = JobPool::new();
    pool.track(7);
    pool.track(8);
    let more = pool.apply_reap_event(ReapEvent::NoneReady);
    assert!(!more);
    assert_eq!(pool.jobs, vec![7, 8]);
    let more = pool.apply_reap_event(ReapEvent::NoChildren);
    assert!(!more);
    assert_eq!(pool.jobs, vec![7, 8]);
}

#[test]
fn reaping_removes_every_occurrence() {
    let mut pool = JobPool::new();
    pool.track(5);
    pool.track(6);
    pool.track(5);
    pool.apply_reap_event(ReapEvent::Reaped(5));
    assert_eq!(pool.jobs, vec![6]);
}

#[test]
fn reap_sweep_without_children_returns_at_once() {
    // The test process has no child processes, so the first non-blocking
    // wait reports that and the sweep ends with the pool unchanged.
    let mut pool = JobPool::new();
    pool.reap_finished();
    assert!(pool.jobs.is_empty());
}

#[test]
fn interrupt_is_consumed_exactly_once() {
    let mut b = InterruptBridge::new();
    assert!(!b.poll());
    b.notify();
    assert!(b.poll());
    assert!(!b.poll());
    b.notify();
    b.notify();
    assert!(b.poll());
    assert!(!b.poll());
}

#[test]
fn history_and_pwd_are_never_recorded() {
    assert!(!should_record(&cv("history")));
    assert!(!should_record(&cv("  history  ")));
    assert!(!should_record(&cv("pwd")));
    assert!(!should_record(&cv("pwd ")));
    assert!(!should_record(&cv("")));
    assert!(!should_record(&cv("   ")));
    assert!(should_record(&cv("ls")));
    assert!(should_record(&cv("echo history")));
    assert!(should_record(&cv("history 1")));
    assert!(should_record(&cv("pwd x")));
}

#[test]
fn recorded_text_is_the_trimmed_line() {
    assert_eq!(record_text(&cv("  ls -l  ")), cv("ls -l"));
    assert_eq!(record_text(&cv("sleep 1 &")), cv("sleep 1 &"));
}

#[test]
fn indices_format_in_decimal() {
    assert_eq!(format_index(0), cv("0"));
    assert_eq!(format_index(7), cv("7"));
    assert_eq!(format_index(10), cv("10"));
    assert_eq!(format_index(123), cv("123"));
    assert_eq!(format_index(1000), cv("1000"));
}

#[test]
fn history_listing_is_one_based_and_ordered() {
    let entries = vec![cv("ls"), cv("cd /tmp"), cv("echo hi")];
    let lines = history_lines(&entries);
    assert_eq!(lines, vec![cv("1: ls"), cv("2: cd /tmp"), cv("3: echo hi")]);
    let empty = history_lines(&vec![]);
    assert!(empty.is_empty());
}

#[test]
fn history_listing_reaches_two_digit_indices() {
    let entries: Vec<Vec<char>> = (0..12).map(|i| cv(&format!("c{}", i))).collect();
    let lines = history_lines(&entries);
    assert_eq!(lines[9], cv("10: c9"));
    assert_eq!(lines[11], cv("12: c11"));
}
