use sysmon::display::formatter::Color;
use sysmon::display::formatter::create_bar;
use sysmon::display::formatter::download_color;
use sysmon::display::formatter::get_color_for_memory;
use sysmon::display::formatter::get_color_for_percentage;
use sysmon::display::formatter::process_cpu_count;
use sysmon::display::formatter::process_memory_count;
use sysmon::display::formatter::truncate_string;
use sysmon::display::formatter::upload_color;
use sysmon::display::formatter::uptime_parts;

#[test]
fn test_create_bar_full() {
    let bar = create_bar(100, 10);
    assert_eq!(bar, "[██████████]");
}

#[test]
fn test_create_bar_empty() {
    let bar = create_bar(0, 10);
    assert_eq!(bar, "[░░░░░░░░░░]");
}

#[test]
fn test_create_bar_half() {
    let bar = create_bar(50, 10);
    assert_eq!(bar, "[█████░░░░░]");
}

#[test]
fn test_get_color_green() {
    assert_eq!(get_color_for_percentage(20), Color::Green);
}

#[test]
fn test_get_color_yellow() {
    assert_eq!(get_color_for_percentage(50), Color::Yellow);
}

#[test]
fn test_get_color_red() {
    assert_eq!(get_color_for_percentage(85), Color::Red);
}

#[test]
fn test_get_color_boundaries() {
    assert_eq!(get_color_for_percentage(29), Color::Green);
    assert_eq!(get_color_for_percentage(30), Color::Yellow);
    assert_eq!(get_color_for_percentage(69), Color::Yellow);
    assert_eq!(get_color_for_percentage(70), Color::Red);
    assert_eq!(get_color_for_percentage(100), Color::Red);
}

#[test]
fn test_create_bar_quarter_rounds_down() {
    // 23% of width 15 is 3.45 segments: 3 filled, 12 empty.
    let bar = create_bar(23, 15);
    assert_eq!(bar, "[███░░░░░░░░░░░░]");
}

#[test]
fn test_create_bar_zero_width() {
    assert_eq!(create_bar(100, 0), "[]");
}

#[test]
fn test_get_color_for_memory_thresholds() {
    assert_eq!(get_color_for_memory(100 * 1024 * 1024), Color::Green);
    assert_eq!(get_color_for_memory(536870912), Color::Yellow);
    assert_eq!(get_color_for_memory(2147483648), Color::Red);
}

#[test]
fn test_network_figure_colors() {
    assert_eq!(download_color(1000), Color::White);
    assert_eq!(download_color(1001), Color::Green);
    assert_eq!(upload_color(100), Color::White);
    assert_eq!(upload_color(101), Color::Green);
}

#[test]
fn test_leaderboard_sizes() {
    assert_eq!(process_cpu_count(false), 5);
    assert_eq!(process_cpu_count(true), 10);
    assert_eq!(process_memory_count(false), 3);
    assert_eq!(process_memory_count(true), 5);
}

#[test]
fn test_truncate_string_long() {
    assert_eq!(truncate_string("averylongprocessname", 10), "averylo...");
}

#[test]
fn test_truncate_string_short() {
    assert_eq!(truncate_string("init", 10), "init");
}

#[test]
fn test_truncate_string_exact_length() {
    assert_eq!(truncate_string("0123456789", 10), "0123456789");
}

#[test]
fn test_uptime_parts_mixed() {
    // 90061 seconds is one day, one hour, one minute.
    assert_eq!(uptime_parts(90061), (1, 1, 1));
}

#[test]
fn test_uptime_parts_zero() {
    assert_eq!(uptime_parts(0), (0, 0, 0));
}

#[test]
fn test_uptime_parts_just_minutes() {
    assert_eq!(uptime_parts(3599), (0, 0, 59));
}
