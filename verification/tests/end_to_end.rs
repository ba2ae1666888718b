use port_scanner::collector::Collector;
use port_scanner::dispatch::{ports_to_scan, ScanConfig};
use port_scanner::outcome::{outcome_of_event, ConnectEvent};
use port_scanner::report::{port_lines, run_log_lines};
use port_scanner::session::ScanSession;
use port_scanner::timestamp::Timestamp;

fn ts(epoch: i64) -> Timestamp {
    Timestamp { year: 2024, month: 6, day: 7, hour: 18, minute: 2, second: 3, epoch }
}

/// Drives one simulated scan of [8000, 8002] where only 8001 answers, as a
/// listener bound there would, and the others refuse.
fn simulated_scan() -> (ScanSession, Collector) {
    let cfg = ScanConfig { start_port: 8000, end_port: 8002, timeout_ms: 200, wait_ms: 1000 };
    assert!(cfg.validate());
    let start = ts(1000);
    let mut collector = Collector::new();
    for port in ports_to_scan(&cfg) {
        let event = if port == 8001 {
            ConnectEvent::Connected
        } else {
            ConnectEvent::Failed(String::from("connection refused"))
        };
        collector.record(outcome_of_event(port, event, ts(1000)));
    }
    collector.close();
    (ScanSession { start, end: ts(1001) }, collector)
}

#[test]
fn scan_with_one_listener_reports_exactly_that_port() {
    let (session, collector) = simulated_scan();
    let snap = collector.snapshot();
    let ports = port_lines(snap);
    assert_eq!(ports, vec!["8001".to_string()]);
    let log = run_log_lines(snap, session.duration_seconds());
    assert_eq!(
        log,
        vec![
            "".to_string(),
            "".to_string(),
            "Here is the scan result".to_string(),
            "Port 8001 is open - Scanned at 2024-06-07 18:02:03".to_string(),
            "Scanning completed in 1 seconds".to_string(),
        ]
    );
}

#[test]
fn running_twice_appends_two_full_sets_of_records() {
    let mut file: Vec<String> = Vec::new();

    let (session1, collector1) = simulated_scan();
    let run1 = run_log_lines(collector1.snapshot(), session1.duration_seconds());
    file.extend(run1.iter().cloned());
    let after_first = file.clone();

    let (session2, collector2) = simulated_scan();
    let run2 = run_log_lines(collector2.snapshot(), session2.duration_seconds());
    file.extend(run2.iter().cloned());

    // The first run's records are intact, as a prefix.
    assert_eq!(&file[..after_first.len()], &after_first[..]);
    // The second full set follows.
    assert_eq!(&file[after_first.len()..], &run2[..]);
    assert_eq!(file.len(), run1.len() + run2.len());
}

#[test]
fn port_recorded_before_the_window_closes_is_persisted() {
    let mut collector = Collector::new();
    collector.record(outcome_of_event(8001, ConnectEvent::Connected, ts(5)));
    collector.close();
    let ports = port_lines(collector.snapshot());
    assert!(ports.iter().any(|l| l == "8001"));
}

#[test]
fn port_resolving_after_the_window_is_absent() {
    let mut collector = Collector::new();
    collector.record(outcome_of_event(8001, ConnectEvent::Connected, ts(5)));
    collector.close();
    // This probe resolved strictly after the global wait window elapsed.
    collector.record(outcome_of_event(8002, ConnectEvent::Connected, ts(9)));
    let ports = port_lines(collector.snapshot());
    assert!(ports.iter().any(|l| l == "8001"));
    assert!(!ports.iter().any(|l| l == "8002"));
}

#[test]
fn zero_open_ports_is_a_valid_outcome() {
    let mut collector = Collector::new();
    collector.record(outcome_of_event(
        9999,
        outcome_event_refused(),
        ts(0),
    ));
    collector.close();
    let snap = collector.snapshot();
    assert!(port_lines(snap).is_empty());
    let log = run_log_lines(snap, 0);
    assert_eq!(log.len(), 4);
    assert_eq!(log[3], "Scanning completed in 0 seconds");
}

fn outcome_event_refused() -> ConnectEvent {
    ConnectEvent::Failed(String::from("connection refused"))
}
