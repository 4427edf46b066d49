use bar::config::{BarConfig, ThemeConfig};
use bar::state::{AppState, NotifEntry, WorkspaceInfo};
use bar::theme::Theme;
use bar::widgets::{
    BatteryWidget, CpuWidget, DiskWidget, KeyboardWidget, LoadWidget, MediaWidget, MemoryWidget,
    NetworkWidget, NotifyWidget, SwapWidget, TempWidget, TitleWidget, UptimeWidget, VolumeWidget,
    WidgetKind, WorkspaceWidget,
};

fn theme() -> Theme {
    Theme::from_config(&ThemeConfig::default())
}

fn ws(id: u32, name: &str) -> WorkspaceInfo {
    WorkspaceInfo { id, name: name.to_string(), monitor: "DP-1".to_string(), windows: 1 }
}

#[test]
fn ram_percent_with_zero_total_is_zero() {
    let mut s = AppState::initial(0);
    s.system.ram_used = 12345;
    s.system.ram_total = 0;
    assert_eq!(s.system.ram_percent(), 0);
    assert_eq!(s.system.disk_percent(), 0);
    s.system.ram_total = 4 * 12345;
    assert_eq!(s.system.ram_percent(), 25);
}

#[test]
fn battery_label_with_time() {
    let mut s = AppState::initial(0);
    assert!(BatteryWidget::new().label(&s).is_none());
    s.system.battery_percent = Some(72);
    s.system.battery_charging = Some(false);
    s.system.battery_time_min = Some(95);
    assert_eq!(BatteryWidget::new().label(&s).unwrap(), "\u{258a} 72% (1h 35m)");
    s.system.battery_percent = Some(10);
    s.system.battery_time_min = None;
    assert_eq!(BatteryWidget::new().label(&s).unwrap(), "\u{258f} 10%");
    assert!(BatteryWidget::new().alert(&s));
}

#[test]
fn memory_cpu_disk_swap_labels() {
    let mut s = AppState::initial(0);
    s.system.ram_used = 2 * 1024 * 1024 * 1024;
    s.system.ram_total = 8 * 1024 * 1024 * 1024;
    s.system.cpu_average = 1250;
    assert_eq!(MemoryWidget::new().label(&s), " 2.0 GiB/8.0 GiB  25%");
    let (cpu, ram) = CpuWidget::new().label(&s);
    assert_eq!(cpu, " 12%");
    assert_eq!(ram, " 2.0 GiB/8.0 GiB");
    assert!(DiskWidget::new().label(&s).is_none());
    s.system.disk_used = 3 * 1024 * 1024;
    s.system.disk_total = 8 * 1024 * 1024;
    assert_eq!(DiskWidget::new().label(&s).unwrap(), "\u{f02ca} 3.0 MiB/8.0 MiB (38%)");
    assert!(SwapWidget::new().label(&s).is_none());
}

#[test]
fn title_is_cut_after_sixty_chars() {
    let mut s = AppState::initial(0);
    assert_eq!(TitleWidget::new().label(&s), "Desktop");
    let long: String = "x".repeat(61);
    s.active_window = Some(long);
    assert_eq!(TitleWidget::new().label(&s), format!("{}\u{2026}", "x".repeat(60)));
    s.active_window = Some("é".repeat(60));
    assert_eq!(TitleWidget::new().label(&s), "é".repeat(60));
}

#[test]
fn media_label_truncates() {
    let mut s = AppState::initial(0);
    assert!(MediaWidget::new().label(&s).is_none());
    s.system.media_title = Some("Song".to_string());
    s.system.media_artist = Some("Band".to_string());
    s.system.media_playing = true;
    assert_eq!(MediaWidget::new().label(&s).unwrap(), "\u{25b6} Band - Song");
    s.system.media_artist = Some("A".repeat(40));
    s.system.media_playing = false;
    assert_eq!(
        MediaWidget::new().label(&s).unwrap(),
        format!("\u{23f8} {}\u{2026}", "A".repeat(38))
    );
}

#[test]
fn network_label_follows_theme() {
    let mut s = AppState::initial(0);
    s.system.net_rx = 1_500_000;
    s.system.net_tx = 2_000;
    s.system.net_interface = "wlan0".to_string();
    s.system.net_signal = Some(-55);
    assert_eq!(NetworkWidget::new().label(&s, &theme()), "\u{2193}1.5M  \u{2191}2K");
    let mut cfg = ThemeConfig::default();
    cfg.network_show = "name, signal ,speed".to_string();
    cfg.icon_style = "ASCII".to_string();
    let t = Theme::from_config(&cfg);
    assert!(!t.use_nerd_icons);
    assert_eq!(
        NetworkWidget::new().label(&s, &t),
        "wlan0  \u{2582}\u{2584}\u{2586}_ -55 dBm  \u{2193}1.5M  \u{2191}2K"
    );
    cfg.network_show = "nothing".to_string();
    let t = Theme::from_config(&cfg);
    assert_eq!(NetworkWidget::new().label(&s, &t), "\u{2193}1.5M  \u{2191}2K");
}

#[test]
fn small_labels() {
    let mut s = AppState::initial(0);
    let t = theme();
    assert!(KeyboardWidget::new().label(&s, &t).is_none());
    s.keyboard_layout = "us".to_string();
    assert_eq!(KeyboardWidget::new().label(&s, &t).unwrap(), "\u{f030c} us");
    s.system.load_1 = 52;
    s.system.load_5 = 105;
    s.system.load_15 = 7;
    assert_eq!(LoadWidget::new().label(&s, &t), " 0.52 1.05 0.07");
    s.system.uptime_secs = 7200;
    assert_eq!(UptimeWidget::new().label(&s, &t), "\u{f051b} 2h 0m");
    s.system.cpu_temp = Some(4567);
    assert_eq!(TempWidget::new().label(&s, &t).unwrap(), " 46\u{b0}C");
    s.system.volume = Some(4550);
    assert_eq!(VolumeWidget::new().label(&s).unwrap(), "\u{f0580} 46%");
    s.system.volume_muted = true;
    assert_eq!(VolumeWidget::new().label(&s).unwrap(), "\u{f075f} muted");
    assert_eq!(NotifyWidget::new().label(&s, &t), "\u{f009a}");
    s.notifications.push(NotifEntry {
        id: 1,
        app_name: String::new(),
        summary: String::new(),
        body: String::new(),
    });
    assert_eq!(NotifyWidget::new().label(&s, &t), "\u{f009a} 1");
}

#[test]
fn workspace_buttons_sorted_by_id() {
    let mut s = AppState::initial(0);
    s.workspaces = vec![ws(3, "c"), ws(1, "a"), ws(2, "b"), ws(1, "a2")];
    s.active_workspace = 2;
    let t = theme();
    let b = WorkspaceWidget::new().buttons(&s, &t);
    let got: Vec<(u32, &str, bool)> = b.iter().map(|b| (b.id, b.label.as_str(), b.active)).collect();
    assert_eq!(got, vec![(1, "a", false), (1, "a2", false), (2, "b", true), (3, "c", false)]);
    assert_eq!(WorkspaceWidget::new().active_label(&s, &t), "b");
    s.active_workspace = 9;
    assert_eq!(WorkspaceWidget::new().active_label(&s, &t), "9");
    assert_eq!(WorkspaceWidget::new().fallback_label(&t), "1");
}

#[test]
fn widget_kinds_by_name() {
    assert_eq!(WidgetKind::from_name("temperature"), Some(WidgetKind::Temperature));
    assert_eq!(WidgetKind::from_name("workspaces"), Some(WidgetKind::Workspaces));
    assert_eq!(WidgetKind::from_name("Clock"), None);
    let cfg = BarConfig::default();
    assert_eq!(WidgetKind::from_name(&cfg.right[0].kind), Some(WidgetKind::Cpu));
}
