use giza_benchmark::metrics::{
    closed_measurement, finalize_metrics, memory_usage_kb, metrics_from, opened_measurement,
    start_metrics, MetricsError,
};
use std::time::Instant;
use giza_benchmark::system_metrics;
use std::time::Duration;

#[test]
fn memory_usage_in_whole_kib() {
    assert_eq!(memory_usage_kb(1000, 1000 + 4096), 4);
    assert_eq!(memory_usage_kb(1000, 1000 + 4095), 3);
    assert_eq!(memory_usage_kb(0, 1023), 0);
    assert_eq!(memory_usage_kb(0, 1024 * 181404), 181404);
}

#[test]
fn shrinking_memory_counts_as_none() {
    assert_eq!(memory_usage_kb(5000, 1000), 0);
    assert_eq!(memory_usage_kb(usize::MAX, 0), 0);
}

#[test]
fn metrics_keep_the_time() {
    let m = metrics_from(Duration::from_millis(313), 2048, 10240);
    assert_eq!(m.exec_time, Duration::from_millis(313));
    assert_eq!(m.memory_usage, 8);
}

#[test]
fn measurement_opens_and_closes() {
    let (start, before) = start_metrics().unwrap();
    let m = finalize_metrics(start, before).unwrap();
    assert!(m.exec_time >= Duration::ZERO);
}

#[test]
fn free_memory_drop() {
    assert_eq!(system_metrics::free_memory_delta(Some(5000), Some(1000)), 4000);
    assert_eq!(system_metrics::free_memory_delta(Some(5000), Some(5000)), 0);
    assert_eq!(system_metrics::free_memory_delta(None, Some(1000)), 0);
    assert_eq!(system_metrics::free_memory_delta(Some(1000), None), 0);
    assert_eq!(system_metrics::free_memory_delta(None, None), 0);
}

#[test]
fn closing_by_free_memory() {
    let t = Duration::from_millis(1500);
    let m = system_metrics::closed_free_memory(t, Some(5000), Some(1000)).unwrap();
    assert_eq!(m.exec_time, t);
    assert_eq!(m.memory_usage, 4000);
    let m = system_metrics::closed_free_memory(t, Some(5000), Some(5000)).unwrap();
    assert_eq!(m.memory_usage, 0);
    let m = system_metrics::closed_free_memory(t, None, Some(1000)).unwrap();
    assert_eq!((m.exec_time, m.memory_usage), (t, 0));
    let m = system_metrics::closed_free_memory(t, Some(1000), None).unwrap();
    assert_eq!((m.exec_time, m.memory_usage), (t, 0));
    let e = system_metrics::closed_free_memory(t, Some(1000), Some(1001)).unwrap_err();
    assert_eq!(e, system_metrics::FreeMemoryGrew { before: 1000, after: 1001 });
}

#[test]
fn system_measurement_opens_and_closes() {
    let (start, before) = system_metrics::start_metrics();
    match system_metrics::finalize_metrics(start, before) {
        Ok(m) => assert!(m.exec_time >= Duration::ZERO),
        Err(e) => assert!(e.before < e.after),
    }
}

#[test]
fn opening_keeps_the_instant_and_reading() {
    let t = Instant::now();
    assert_eq!(opened_measurement(t, Ok(4096)), Ok((t, 4096)));
    assert_eq!(
        opened_measurement(t, Err("no stats".to_string())),
        Err(MetricsError::Allocated("no stats".to_string()))
    );
}

#[test]
fn closing_measures_growth_or_reports_the_reading() {
    let m = closed_measurement(Duration::from_millis(5), 1024, Ok(1024 * 11)).unwrap();
    assert_eq!(m.exec_time, Duration::from_millis(5));
    assert_eq!(m.memory_usage, 10);
    assert_eq!(
        closed_measurement(Duration::from_millis(5), 0, Err("x".to_string())).unwrap_err(),
        MetricsError::Allocated("x".to_string())
    );
}
