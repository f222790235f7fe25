use heartio::advertisement::{AdvertisementEvent, XiaomiBandMonitor};
use heartio::config::{Config, SourceConfig};
use heartio::discovery::{DiscoveryCriteria, PeripheralInfo, PollDecision};
use heartio::ingest::{heart_rate_response, health_handler, validate_heart_rate_query, HeartRateQuery, IngestRejection};
use heartio::lifecycle::{cleanup_caffeinate, AwakeAction, ReleasePlan, SleepSlot, SystemUtils};
use heartio::logs::{LogBuffer, LogEntry, LogLevel, MAX_LOG_ENTRIES};
use heartio::monitor::{HeartRateMonitor, Phase, RateLimiter, SessionError, StartError, TeardownStep};
use heartio::payload::ManufacturerEntry;

fn band_data(bpm: u8) -> Vec<ManufacturerEntry> {
    vec![ManufacturerEntry { company_id: 0x1234, data: vec![0, 0, 0, bpm] }]
}

fn update(address: &str, name: Option<&str>, bpm: u8) -> AdvertisementEvent {
    AdvertisementEvent::DeviceUpdated {
        address: address.to_string(),
        local_name: name.map(|n| n.to_string()),
        manufacturer_data: band_data(bpm),
    }
}

fn data_event(id: &str, bpm: u8) -> AdvertisementEvent {
    AdvertisementEvent::ManufacturerData { id: id.to_string(), manufacturer_data: band_data(bpm) }
}

#[test]
fn advertisement_pins_first_band_and_ignores_others() {
    let mut m = XiaomiBandMonitor::new();
    let first = update("AA:BB:CC:DD:EE:FF", Some("Xiaomi Smart Band X"), 72);
    assert_eq!(m.handle_event(&first, 0), Some(72));
    assert_eq!(m.device_addr.as_deref(), Some("AA:BB:CC:DD:EE:FF"));
    assert_eq!(m.handle_event(&update("11:22:33:44:55:66", Some("Xiaomi Smart Band X"), 90), 5000), None);
    assert_eq!(m.handle_event(&data_event("11:22:33:44:55:66", 90), 5000), None);
    assert_eq!(m.device_addr.as_deref(), Some("AA:BB:CC:DD:EE:FF"));
    assert_eq!(m.handle_event(&data_event("AA:BB:CC:DD:EE:FF", 75), 6000), Some(75));
}

#[test]
fn advertisement_from_other_products_is_skipped() {
    let mut m = XiaomiBandMonitor::new();
    assert_eq!(m.handle_event(&update("AA", Some("Polar H10"), 72), 0), None);
    assert_eq!(m.handle_event(&update("AB", None, 72), 0), None);
    assert_eq!(m.handle_event(&data_event("AA", 72), 0), None);
    assert!(m.device_addr.is_none());
}

#[test]
fn advertisement_dedup_window_is_per_address() {
    let mut m = XiaomiBandMonitor::new();
    assert_eq!(m.handle_event(&update("AA", Some("Band"), 72), 0), None);
    // within one second of the last processed advertisement of AA
    assert_eq!(m.handle_event(&update("AA", Some("Xiaomi Smart Band 8"), 72), 999), None);
    assert_eq!(m.handle_event(&update("BB", Some("Other"), 72), 999), None);
    assert_eq!(m.handle_event(&update("AA", Some("Xiaomi Smart Band 8"), 73), 1000), Some(73));
}

#[test]
fn advertisement_without_valid_rate_does_not_pin() {
    let mut m = XiaomiBandMonitor::new();
    assert_eq!(m.handle_event(&update("AA", Some("Xiaomi Smart Band 9"), 0), 0), None);
    assert!(m.device_addr.is_none());
    assert_eq!(m.send_bpm(&band_data(88), "CC"), Some(88));
    assert_eq!(m.device_addr.as_deref(), Some("CC"));
    assert_eq!(m.send_bpm(&band_data(89), "DD"), Some(89));
    assert_eq!(m.device_addr.as_deref(), Some("CC"));
}

#[test]
fn band_monitor_running_flag() {
    let mut m = XiaomiBandMonitor::new();
    assert!(!m.running);
    m.start_monitoring();
    assert!(m.running);
    m.stop();
    assert!(!m.running);
}

fn peripheral(name: Option<&str>, address: &str, services: Vec<u128>) -> PeripheralInfo {
    PeripheralInfo { local_name: name.map(|n| n.to_string()), address: address.to_string(), services }
}

#[test]
fn discovery_by_name_ignores_case() {
    let c = DiscoveryCriteria::ByName("Polar H10".to_string());
    let ps = vec![
        peripheral(None, "00:00", vec![]),
        peripheral(Some("polar h1"), "00:01", vec![]),
        peripheral(Some("POLAR h10"), "00:02", vec![]),
        peripheral(Some("Polar H10"), "00:03", vec![]),
    ];
    assert_eq!(c.find_match(&ps), Some(2));
    assert_eq!(c.poll_step(0, &ps), PollDecision::Found(2));
    assert!(!c.matches_exact(&Some("POLAR h10".to_string()), &"x".to_string(), &vec![]));
    assert!(c.matches_exact(&Some("Polar H10".to_string()), &"x".to_string(), &vec![]));
}

#[test]
fn discovery_by_address_ignores_case() {
    let c = DiscoveryCriteria::ByAddress("aa:bb:cc:dd:ee:ff".to_string());
    let ps = vec![peripheral(Some("x"), "AA:BB:CC:DD:EE:00", vec![]), peripheral(None, "AA:BB:CC:DD:EE:FF", vec![])];
    assert_eq!(c.find_match(&ps), Some(1));
}

#[test]
fn discovery_heuristic_matches_service() {
    let hr = (0x180Du128 << 96) | 0x1000_8000_0080_5f9b_34fb;
    let battery = (0x180Fu128 << 96) | 0x1000_8000_0080_5f9b_34fb;
    let c = DiscoveryCriteria::Heuristic;
    let ps = vec![peripheral(Some("a"), "1", vec![battery]), peripheral(None, "2", vec![battery, hr])];
    assert_eq!(c.poll_step(29_999, &ps), PollDecision::Found(1));
    assert_eq!(c.poll_step(30_000, &ps), PollDecision::TimedOut);
    assert_eq!(c.poll_step(0, &vec![peripheral(None, "1", vec![battery])]), PollDecision::Wait(1000));
}

#[test]
fn discovery_timeouts_and_intervals() {
    let by_name = DiscoveryCriteria::ByName("x".to_string());
    assert_eq!(by_name.timeout_ms(), 10_000);
    assert_eq!(by_name.poll_interval_ms(), 500);
    assert_eq!(by_name.poll_step(9_999, &vec![]), PollDecision::Wait(500));
    assert_eq!(by_name.poll_step(10_000, &vec![]), PollDecision::TimedOut);
    assert_eq!(DiscoveryCriteria::Heuristic.timeout_ms(), 30_000);
    assert_eq!(DiscoveryCriteria::Heuristic.poll_interval_ms(), 1000);
}

#[test]
fn discovery_criteria_follow_source() {
    let named = DiscoveryCriteria::for_source(&SourceConfig::NamedBluetooth("n".to_string()));
    assert!(matches!(named, Some(DiscoveryCriteria::ByName(n)) if n == "n"));
    assert!(matches!(DiscoveryCriteria::for_source(&SourceConfig::HeuristicBluetooth), Some(DiscoveryCriteria::Heuristic)));
    assert!(DiscoveryCriteria::for_source(&SourceConfig::HttpIngest(2333)).is_none());
    assert!(DiscoveryCriteria::for_source(&SourceConfig::AdvertisementScan).is_none());
}

#[test]
fn rate_limiter_suppresses_within_window() {
    let mut limiter = RateLimiter::new();
    let mut sent = Vec::new();
    for t in [0u64, 1000, 1600] {
        if limiter.is_open(t) {
            limiter.record_dispatch(t);
            sent.push(t);
        }
    }
    assert_eq!(sent, vec![0, 1600]);
}

#[test]
fn rate_limiter_edges() {
    let mut limiter = RateLimiter::new();
    limiter.record_dispatch(10_000);
    assert!(!limiter.is_open(11_499));
    assert!(limiter.is_open(11_500));
    assert!(!limiter.is_open(9_000));
}

fn running_monitor() -> HeartRateMonitor {
    let mut m = HeartRateMonitor::new(Config::default(), 100);
    assert!(matches!(m.start(true, true), Ok(SourceConfig::HeuristicBluetooth)));
    m
}

#[test]
fn monitor_dispatch_is_rate_limited() {
    let mut m = running_monitor();
    let a = m.process_heart_rate(65, 0);
    assert_eq!(a.ui, Some(65));
    assert_eq!(a.store, Some(65));
    assert_eq!(a.notify.as_deref(), Some("\u{2661} 65"));
    m.notification_result(0, true);
    assert!(m.process_heart_rate(66, 1000).notify.is_none());
    let c = m.process_heart_rate(67, 1600);
    assert_eq!(c.notify.as_deref(), Some("\u{2661} 67"));
    let stats = m.get_stats(2100);
    assert_eq!(stats.total_heart_rates, 3);
    assert_eq!(stats.heart_rate_sum, 198);
    assert_eq!(stats.session_duration_ms, 2000);
    assert_eq!(stats.last_heart_rate_time, Some(1600));
}

#[test]
fn monitor_failed_send_retries_next_sample() {
    let mut m = running_monitor();
    assert!(m.process_heart_rate(90, 0).notify.is_some());
    m.notification_result(0, false);
    assert!(m.process_heart_rate(91, 10).notify.is_some());
}

#[test]
fn monitor_drops_invalid_or_late_samples() {
    let mut m = running_monitor();
    let a = m.process_heart_rate(300, 0);
    assert!(a.ui.is_none() && a.store.is_none() && a.notify.is_none());
    assert_eq!(m.heart_rate_count, 0);
    m.driver_finished();
    assert_eq!(m.phase, Phase::Draining);
    assert!(m.process_heart_rate(80, 0).ui.is_none());
}

#[test]
fn monitor_start_failures() {
    let mut m = HeartRateMonitor::new(Config::default(), 0);
    assert!(matches!(m.start(false, true), Err(StartError::StoreUnavailable)));
    assert_eq!(m.phase, Phase::Stopped);
    let mut m = HeartRateMonitor::new(Config::default(), 0);
    assert!(matches!(m.start(true, false), Err(StartError::NotifierUnavailable)));
    assert_eq!(m.shutdown(), vec![TeardownStep::CloseStore]);
}

#[test]
fn monitor_shutdown_runs_once() {
    let mut m = running_monitor();
    let status = m.get_connection_status();
    assert!(status.bluetooth_connected && status.osc_connected && status.database_connected);
    assert!(!status.apple_watch_server_running);
    assert_eq!(
        m.shutdown(),
        vec![TeardownStep::ReleaseSleepGuard, TeardownStep::StopDriver, TeardownStep::CloseStore]
    );
    assert_eq!(m.phase, Phase::Stopped);
    assert_eq!(m.shutdown(), vec![]);
    assert!(!m.get_connection_status().database_connected);
}

#[test]
fn monitor_reports_ingest_source() {
    let cfg = Config { apple_watch: true, ..Config::default() };
    let mut m = HeartRateMonitor::new(cfg, 0);
    assert!(matches!(m.start(true, true), Ok(SourceConfig::HttpIngest(2333))));
    let status = m.get_connection_status();
    assert!(status.apple_watch_server_running && !status.bluetooth_connected);
}

#[test]
fn release_is_idempotent() {
    let mut guard = SystemUtils::new();
    let mut slot = SleepSlot::new();
    assert_eq!(guard.keep_system_awake(), AwakeAction::Spawn);
    guard.awake_started(&mut slot, 4242);
    assert_eq!(guard.keep_system_awake(), AwakeAction::AlreadyRunning);
    assert_eq!(guard.allow_system_sleep(&mut slot), ReleasePlan::Graceful(4242));
    assert_eq!(guard.allow_system_sleep(&mut slot), ReleasePlan::Nothing);
    assert_eq!(cleanup_caffeinate(&mut slot), None);
}

#[test]
fn crash_path_then_release() {
    let mut guard = SystemUtils::new();
    let mut slot = SleepSlot::new();
    guard.awake_started(&mut slot, 77);
    assert_eq!(cleanup_caffeinate(&mut slot), Some(77));
    assert_eq!(cleanup_caffeinate(&mut slot), None);
    assert_eq!(slot.pid, 0);
    assert_eq!(guard.allow_system_sleep(&mut slot), ReleasePlan::Reap(77));
    assert_eq!(guard.allow_system_sleep(&mut slot), ReleasePlan::Nothing);
}

#[test]
fn orphaned_helper_is_released() {
    let mut guard = SystemUtils::new();
    let mut slot = SleepSlot { pid: 9 };
    assert_eq!(guard.allow_system_sleep(&mut slot), ReleasePlan::Orphan(9));
    assert_eq!(guard.allow_system_sleep(&mut slot), ReleasePlan::Nothing);
}

#[test]
fn ingest_validation() {
    assert_eq!(validate_heart_rate_query(&HeartRateQuery { bpm: Some(72) }), Ok(72));
    assert_eq!(validate_heart_rate_query(&HeartRateQuery { bpm: Some(299) }), Ok(299));
    assert_eq!(validate_heart_rate_query(&HeartRateQuery { bpm: Some(0) }), Err(IngestRejection::BadRequest));
    assert_eq!(validate_heart_rate_query(&HeartRateQuery { bpm: Some(300) }), Err(IngestRejection::BadRequest));
    assert_eq!(validate_heart_rate_query(&HeartRateQuery { bpm: None }), Err(IngestRejection::BadRequest));
    assert_eq!(IngestRejection::BadRequest.status_code(), 400);
    assert_eq!(IngestRejection::Internal.status_code(), 500);
}

#[test]
fn ingest_responses() {
    let r = heart_rate_response(72);
    assert_eq!(r.status, "success");
    assert_eq!(r.message, "Heart rate 72 BPM received");
    let h = health_handler();
    assert_eq!(h.status, "ok");
}

#[test]
fn log_levels() {
    assert_eq!(LogLevel::Info.icon(), "INFO");
    assert_eq!(LogLevel::Warn.icon(), "WARN");
    assert_eq!(LogLevel::Error.icon(), "ERROR");
    assert_eq!(LogLevel::Debug.icon(), "DEBUG");
    assert_eq!(LogLevel::Warn.color(), (255, 165, 0));
    assert!(!LogLevel::Debug.is_visible(false));
    assert!(LogLevel::Debug.is_visible(true));
    assert!(LogLevel::Error.is_visible(false));
}

#[test]
fn log_buffer_keeps_newest() {
    let mut buf = LogBuffer::new();
    for i in 0..(MAX_LOG_ENTRIES as i64 + 5) {
        buf.add_log_entry(LogEntry { timestamp_ms: i, level: LogLevel::Info, message: format!("{}", i) });
    }
    assert_eq!(buf.entries.len(), MAX_LOG_ENTRIES);
    assert_eq!(buf.entries.front().map(|e| e.timestamp_ms), Some(5));
    assert_eq!(buf.entries.back().map(|e| e.timestamp_ms), Some(MAX_LOG_ENTRIES as i64 + 4));
}

#[test]
fn only_fatal_errors_end_a_session() {
    assert!(!SessionError::ParseError.is_fatal());
    assert!(!SessionError::SinkError.is_fatal());
    assert!(SessionError::ConnectionLost.is_fatal());
    assert!(SessionError::DiscoveryTimeout.is_fatal());
    let mut m = running_monitor();
    m.report_error(SessionError::SinkError);
    assert_eq!(m.phase, Phase::Running);
    m.report_error(SessionError::ConnectionLost);
    assert_eq!(m.phase, Phase::Draining);
}

#[test]
fn start_twice_is_refused() {
    let mut m = running_monitor();
    assert!(matches!(m.start(true, true), Err(StartError::AlreadyStarted)));
    assert_eq!(m.phase, Phase::Running);
}
