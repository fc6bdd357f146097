use std::time::{Duration, Instant};
use tea_timer::{elapsed_line, format_duration, ltook, took, took_line, Timer};

fn busy_wait(d: Duration) {
    let start = Instant::now();
    while start.elapsed() < d {}
}

#[test]
fn test_timer_new() {
    let timer = Timer::new("Test Task");
    assert_eq!(timer.task_name, "Test Task");
}

#[test]
fn test_timer_restart() {
    let mut timer = Timer::new("Task 1");
    timer.restart("Task 2");
    assert_eq!(timer.task_name, "Task 2");
}

#[test]
fn test_timer_duration() {
    let timer = Timer::new("Duration Test");
    busy_wait(Duration::from_millis(10));
    assert!(timer.duration().as_millis() >= 10);
}

#[test]
fn test_timer_duration_str() {
    let timer = Timer::new("Duration Str Test");
    busy_wait(Duration::from_millis(10));
    assert!(timer.duration_str().contains("ms"));
}

#[test]
fn test_timer_default() {
    let timer = Timer::default();
    assert_eq!(timer.task_name, "");
}

#[test]
fn test_took() {
    let (result, _report) = took(
        || {
            busy_wait(Duration::from_millis(10));
            42
        },
        Some("Test Task"),
    );
    assert_eq!(result, 42);
}

#[test]
fn test_took_macro() {
    let (result, _report) = took(
        || {
            busy_wait(Duration::from_millis(10));
            42
        },
        None,
    );
    assert_eq!(result, 42);
}

#[test]
fn fresh_timer_reads_small_elapsed() {
    let timer = Timer::new("X");
    assert!(timer.duration() < Duration::from_millis(50));
}

#[test]
fn restart_renames_and_resets() {
    let mut timer = Timer::new("X");
    busy_wait(Duration::from_millis(20));
    let before = timer.duration();
    timer.restart("Y");
    assert_eq!(timer.task_name, "Y");
    assert!(timer.duration() < before);
}

#[test]
fn successive_readings_do_not_decrease() {
    let timer = Timer::new("M");
    let first = timer.duration();
    let second = timer.duration();
    assert!(second >= first);
}

#[test]
fn timer_reports_name_the_task() {
    let timer = Timer::new("T");
    let elapsed = timer.elapsed_str();
    let took_report = timer.took_str();
    assert!(elapsed.starts_with("T elapsed "));
    assert!(elapsed.ends_with("s"));
    assert!(took_report.starts_with("T took "));
}

#[test]
fn elapsed_report_with_fixed_duration() {
    let d = Duration::from_micros(1500);
    assert_eq!(elapsed_line("T", d), format!("T elapsed {}", format_duration(d)));
    assert_eq!(elapsed_line("T", d), "T elapsed 1.50ms");
}

#[test]
fn took_report_with_fixed_duration() {
    let d = Duration::from_secs(2);
    assert_eq!(took_line("T", d), format!("T took {}", format_duration(d)));
    assert_eq!(took_line("T", d), "T took 2.00s");
}

#[test]
fn took_returns_result_unchanged() {
    let (result, report) = took(|| 42, Some("Task"));
    assert_eq!(result, 42);
    assert!(report.starts_with("Task took "));
}

#[test]
fn took_without_name_reports_empty_label() {
    let (result, report) = took(|| "done", None);
    assert_eq!(result, "done");
    assert!(report.starts_with(" took "));
}

#[test]
fn ltook_returns_result_and_final_report() {
    let (result, report) = ltook(|| vec![1u8, 2, 3], Some("Load"));
    assert_eq!(result, vec![1u8, 2, 3]);
    assert!(report.starts_with("Load took "));
}
