use bar::widgets::{
    battery_icon, fmt_uptime, format_bytes, format_rate, format_time, signal_label,
};

#[test]
fn format_bytes_gib() {
    assert_eq!(format_bytes(8 * 1024 * 1024 * 1024), "8.0 GiB");
}

#[test]
fn format_bytes_mib() {
    assert_eq!(format_bytes(512 * 1024 * 1024), "512.0 MiB");
}

#[test]
fn format_bytes_zero() {
    assert_eq!(format_bytes(0), "0 B");
}

#[test]
fn format_bytes_rounds_to_one_decimal() {
    assert_eq!(format_bytes(1023), "1023 B");
    assert_eq!(format_bytes(1024), "1.0 KiB");
    assert_eq!(format_bytes(1536), "1.5 KiB");
    assert_eq!(format_bytes(7_838_315_315), "7.3 GiB");
    assert_eq!(format_bytes(1024 * 1024 - 1), "1024.0 KiB");
    assert_eq!(format_bytes(u64::MAX), "17179869184.0 GiB");
}

#[test]
fn format_rate_units() {
    assert_eq!(format_rate(999), "999B");
    assert_eq!(format_rate(1000), "1K");
    assert_eq!(format_rate(12_400), "12K");
    assert_eq!(format_rate(2_500_000), "2.5M");
}

#[test]
fn uptime_in_two_units() {
    assert_eq!(fmt_uptime(0), "1m");
    assert_eq!(fmt_uptime(59 * 60), "59m");
    assert_eq!(fmt_uptime(3 * 3600 + 7 * 60), "3h 7m");
    assert_eq!(fmt_uptime(2 * 86400 + 5 * 3600), "2d 5h");
}

#[test]
fn battery_time_text() {
    assert_eq!(format_time(None), "");
    assert_eq!(format_time(Some(0)), "");
    assert_eq!(format_time(Some(45)), "45m");
    assert_eq!(format_time(Some(83)), "1h 23m");
}

#[test]
fn battery_glyphs_by_level() {
    assert_eq!(battery_icon(50, true), "\u{26a1}");
    assert_eq!(battery_icon(100, false), "\u{2588}");
    assert_eq!(battery_icon(65, false), "\u{258a}");
    assert_eq!(battery_icon(40, false), "\u{258c}");
    assert_eq!(battery_icon(20, false), "\u{258e}");
    assert_eq!(battery_icon(5, false), "\u{258f}");
    assert_eq!(battery_icon(200, false), "\u{258f}");
}

#[test]
fn signal_labels() {
    assert_eq!(signal_label(None, false), "-- dBm");
    assert_eq!(signal_label(None, true), "\u{f092d}");
    assert_eq!(signal_label(Some(-43), false), "\u{2582}\u{2584}\u{2586}\u{2588} -43 dBm");
    assert_eq!(signal_label(Some(-65), false), "\u{2582}\u{2584}__ -65 dBm");
    assert_eq!(signal_label(Some(-80), true), "\u{f091f} -80 dBm");
}
