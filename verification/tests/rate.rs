use sysmon::monitor::network::ByteUnit;
use sysmon::monitor::network::NetworkInfo;
use sysmon::monitor::system::RateSample;
use sysmon::monitor::system::SystemMonitor;

fn sample(timestamp_ms: u64, received: u64, transmitted: u64) -> RateSample {
    RateSample { timestamp_ms, received, transmitted }
}

#[test]
fn test_first_call_yields_zero_rates() {
    let mut monitor = SystemMonitor::new();
    let info = monitor.network_info(sample(5_000, 123_456, 654_321));
    assert_eq!(info.download_speed, 0);
    assert_eq!(info.upload_speed, 0);
    assert_eq!(info.total_received, 123_456);
    assert_eq!(info.total_transmitted, 654_321);
    assert_eq!(monitor.last_network_check, Some(sample(5_000, 123_456, 654_321)));
}

#[test]
fn test_rate_over_two_seconds() {
    let mut monitor = SystemMonitor::new();
    monitor.network_info(sample(1_000, 1_000, 500));
    let info = monitor.network_info(sample(3_000, 3_000, 1_500));
    // 2000 bytes over 2 seconds down, 1000 bytes over 2 seconds up.
    assert_eq!(info.download_speed, 1_000);
    assert_eq!(info.upload_speed, 500);
}

#[test]
fn test_rate_rounds_down() {
    let mut monitor = SystemMonitor::new();
    monitor.network_info(sample(0, 0, 0));
    let info = monitor.network_info(sample(3_000, 10, 0));
    // 10 bytes over 3 seconds: 3.33 bytes per second, floored.
    assert_eq!(info.download_speed, 3);
}

#[test]
fn test_counter_reset_gives_zero() {
    let mut monitor = SystemMonitor::new();
    monitor.network_info(sample(1_000, 9_000, 9_000));
    let info = monitor.network_info(sample(2_000, 100, 8_000));
    assert_eq!(info.download_speed, 0);
    // The other direction still advanced: counters are independent.
    assert_eq!(info.upload_speed, 0);
    assert_eq!(monitor.last_network_check, Some(sample(2_000, 100, 8_000)));
}

#[test]
fn test_zero_elapsed_updates_state() {
    let mut monitor = SystemMonitor::new();
    monitor.network_info(sample(1_000, 100, 100));
    let info = monitor.network_info(sample(1_000, 600, 100));
    assert_eq!(info.download_speed, 0);
    assert_eq!(info.upload_speed, 0);
    // The state was still replaced: the next call measures from the new
    // counters, not the stale ones.
    assert_eq!(monitor.last_network_check, Some(sample(1_000, 600, 100)));
    let later = monitor.network_info(sample(2_000, 1_600, 100));
    assert_eq!(later.download_speed, 1_000);
}

#[test]
fn test_clock_going_backwards_gives_zero() {
    let mut monitor = SystemMonitor::new();
    monitor.network_info(sample(10_000, 100, 100));
    let info = monitor.network_info(sample(4_000, 900, 900));
    assert_eq!(info.download_speed, 0);
    assert_eq!(info.upload_speed, 0);
    assert_eq!(monitor.last_network_check, Some(sample(4_000, 900, 900)));
}

#[test]
fn test_default_monitor_has_no_state() {
    let monitor = SystemMonitor::default();
    assert_eq!(monitor.last_network_check, None);
}

#[test]
fn test_network_info_constructor() {
    let info = NetworkInfo::new(1, 2, 3, 4);
    assert_eq!(info.download_speed, 1);
    assert_eq!(info.upload_speed, 2);
    assert_eq!(info.total_received, 3);
    assert_eq!(info.total_transmitted, 4);
}

#[test]
fn test_format_speed_units() {
    assert_eq!(NetworkInfo::format_speed(500), (50_000, ByteUnit::B));
    assert_eq!(NetworkInfo::format_speed(2_048), (200, ByteUnit::KB));
    assert_eq!(NetworkInfo::format_speed(3 * 1_048_576), (300, ByteUnit::MB));
    assert_eq!(NetworkInfo::format_speed(1_073_741_824), (100, ByteUnit::GB));
    // Speeds never use the terabyte unit.
    assert_eq!(NetworkInfo::format_speed(2 * 1_099_511_627_776), (204_800, ByteUnit::GB));
}

#[test]
fn test_format_bytes_units() {
    assert_eq!(NetworkInfo::format_bytes(1_023), (102_300, ByteUnit::B));
    assert_eq!(NetworkInfo::format_bytes(1_024), (100, ByteUnit::KB));
    assert_eq!(NetworkInfo::format_bytes(1_536), (150, ByteUnit::KB));
    assert_eq!(NetworkInfo::format_bytes(1_099_511_627_776), (100, ByteUnit::TB));
}
