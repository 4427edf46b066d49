use bar::system::{
    parse_wifi_signal, pick_cpu_sensor, brightness_percent, cpu_average, media_status, net_rate, parse_battery, primary_interface,
    read_battery_time, root_disk_usage, take_snapshot, trimmed_output, BatteryCounters, Readings,
};

fn nets(list: &[(&str, u64, u64)]) -> Vec<(String, u64, u64)> {
    list.iter().map(|(n, r, t)| (n.to_string(), *r, *t)).collect()
}

fn counters() -> BatteryCounters {
    BatteryCounters {
        energy_now: None,
        energy_full: None,
        power_now: None,
        charge_now: None,
        charge_full: None,
        current_now: None,
        status: String::new(),
    }
}

#[test]
fn cpu_average_is_mean() {
    assert_eq!(cpu_average(&vec![]), 0);
    assert_eq!(cpu_average(&vec![1000, 2000, 3001]), 2000);
    assert_eq!(cpu_average(&vec![u32::MAX, u32::MAX]), u32::MAX);
}

#[test]
fn rates_per_second() {
    assert_eq!(net_rate(4000, 2000), 2000);
    assert_eq!(net_rate(3, 2000), 1);
    assert_eq!(net_rate(u64::MAX, 1), u64::MAX);
}

#[test]
fn busiest_interface_skips_loopback() {
    assert_eq!(primary_interface(&nets(&[])), "");
    assert_eq!(primary_interface(&nets(&[("lo", 900, 900)])), "");
    assert_eq!(
        primary_interface(&nets(&[("lo", 900, 900), ("eth0", 10, 5), ("wlan0", 3, 1)])),
        "eth0"
    );
    assert_eq!(primary_interface(&nets(&[("a", 5, 5), ("b", 10, 0)])), "b");
}

#[test]
fn root_disk_found_by_mount_point() {
    let disks = vec![
        ("/boot".to_string(), 100, 50),
        ("/".to_string(), 1000, 400),
    ];
    assert_eq!(root_disk_usage(&disks), (600, 1000));
    assert_eq!(root_disk_usage(&vec![]), (0, 0));
}

#[test]
fn battery_files() {
    assert_eq!(parse_battery("87\n", "Discharging\n"), Some((87, false)));
    assert_eq!(parse_battery(" 100", "Full"), Some((100, true)));
    assert_eq!(parse_battery("45", "Charging"), Some((45, true)));
    assert_eq!(parse_battery("300", "Full"), None);
    assert_eq!(parse_battery("n/a", "Full"), None);
}

#[test]
fn battery_time_energy_then_charge() {
    let mut b = counters();
    assert_eq!(read_battery_time(&vec![b.clone()]), None);
    b.charge_now = Some(2_000_000);
    b.charge_full = Some(4_000_000);
    b.current_now = Some(1_000_000);
    b.status = "Discharging\n".to_string();
    assert_eq!(read_battery_time(&vec![b.clone()]), Some(120));
    b.status = "Charging\n".to_string();
    assert_eq!(read_battery_time(&vec![b.clone()]), Some(120));
    b.energy_now = Some(30_000_000);
    b.energy_full = Some(50_000_000);
    b.power_now = Some(10_000_000);
    assert_eq!(read_battery_time(&vec![b.clone()]), Some(120));
    b.status = "Discharging".to_string();
    assert_eq!(read_battery_time(&vec![b.clone()]), Some(180));
    b.power_now = Some(0);
    assert_eq!(read_battery_time(&vec![b.clone()]), Some(120));
    assert_eq!(read_battery_time(&vec![counters(), b]), Some(120));
}

#[test]
fn brightness_and_media() {
    assert_eq!(brightness_percent(50, 0), None);
    assert_eq!(brightness_percent(128, 255), Some(50));
    assert_eq!(brightness_percent(300, 255), Some(100));
    assert_eq!(media_status("Playing\n"), Some(true));
    assert_eq!(media_status("Paused"), Some(false));
    assert_eq!(media_status("Stopped"), None);
    assert_eq!(media_status("  "), None);
    assert_eq!(trimmed_output("  hi \n"), Some("hi".to_string()));
    assert_eq!(trimmed_output("\n"), None);
}

#[test]
fn snapshot_from_readings() {
    let rd = Readings {
        cpu_per_core: vec![1000, 3000],
        ram_used: 1,
        ram_total: 0,
        swap_used: 0,
        swap_total: 0,
        disks: vec![("/".to_string(), 100, 30)],
        networks: nets(&[("lo", 1000, 1000), ("eth0", 4000, 2000)]),
        interval_ms: 2000,
        net_signal: Some(-50),
        battery: Some((80, true)),
        battery_time_min: Some(10),
        cpu_temp: None,
        volume: None,
        volume_muted: false,
        brightness: None,
        uptime_secs: 5,
        load_1: 1,
        load_5: 2,
        load_15: 3,
        media_title: None,
        media_artist: None,
        media_playing: false,
        custom_output: String::new(),
    };
    let s = take_snapshot(rd);
    assert_eq!(s.cpu_average, 2000);
    assert_eq!((s.disk_used, s.disk_total), (70, 100));
    assert_eq!((s.net_rx, s.net_tx), (2500, 1500));
    assert_eq!(s.net_interface, "eth0");
    assert_eq!(s.net_signal, Some(-50));
    assert_eq!((s.battery_percent, s.battery_charging), (Some(80), Some(true)));
    assert_eq!(s.ram_percent(), 0);
}

const WIRELESS: &str = "Inter-| sta-|   Quality        |   Discarded packets\n face | tus | link level noise |  nwid  crypt\n wlan0: 0000   67.  -43.  -256.        0      0\n wlp2s0: 0000   50.  -61  -256        0      0\n";

#[test]
fn wifi_signal_from_wireless_table() {
    assert_eq!(parse_wifi_signal(WIRELESS, "wlan0"), Some(-43));
    assert_eq!(parse_wifi_signal(WIRELESS, "wlp2s0"), Some(-61));
    assert_eq!(parse_wifi_signal(WIRELESS, "eth0"), None);
    assert_eq!(parse_wifi_signal("", "wlan0"), None);
    assert_eq!(parse_wifi_signal("h1\nh2\nno colon here\n wlan0: 0 1. -40.\n", "wlan0"), None);
    assert_eq!(parse_wifi_signal("h1\nh2\n wlan0: 0000 67.\n", "wlan0"), None);
}

fn labels(list: &[&str]) -> Vec<String> {
    list.iter().map(|s| s.to_string()).collect()
}

#[test]
fn cpu_sensor_prefers_package_labels() {
    assert_eq!(pick_cpu_sensor(&labels(&[])), None);
    assert_eq!(pick_cpu_sensor(&labels(&["acpitz temp1", "Package id 0", "CPU"])), Some(1));
    assert_eq!(pick_cpu_sensor(&labels(&["nvme Composite", "k10temp TCTL"])), Some(1));
    assert_eq!(pick_cpu_sensor(&labels(&["Core 1", "cpu_thermal", "Core 0"])), Some(1));
    assert_eq!(pick_cpu_sensor(&labels(&["nvme", "amdgpu edge"])), None);
}
