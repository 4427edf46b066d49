//! The resource sampler's computations.  The caller reads the host's counters
//! and files; the functions here turn those readings into a snapshot.
use vstd::prelude::*;
use crate::state::SystemSnapshot;
use crate::theme::{lower_of, lowercase};
use crate::text::{
    chars_of, eq_chars, eq_str, parse_u32, parse_u32_exec, split_char, split_on_char, split_once,
    split_once_exec, string_from, trim, trim_chars, words, words_exec,
};

verus! {

/// Sum of a sequence of readings.
pub open spec fn sum(s: Seq<u32>) -> int
    decreases s.len(),
{
    if s.len() == 0 {
        0
    } else {
        sum(s.drop_last()) + s.last()
    }
}

/// Arithmetic mean of the per-core readings, rounded down; 0 with no cores.
pub open spec fn mean(s: Seq<u32>) -> int {
    if s.len() == 0 {
        0
    } else {
        sum(s) / (s.len() as int)
    }
}

pub fn cpu_average(per_core: &Vec<u32>) -> (r: u32)
    ensures
        r as int == mean(per_core@),
{
    let n = per_core.len();
    if n == 0 {
        return 0;
    }
    let mut acc: u128 = 0;
    let mut i: usize = 0;
    while i < n
        invariant
            n == per_core@.len(),
            i <= n,
            acc as int == sum(per_core@.subrange(0, i as int)),
            acc <= i as int * u32::MAX as int,
        decreases n - i,
    {
        assert(per_core@.subrange(0, i + 1).drop_last() =~= per_core@.subrange(0, i as int));
        proof {
            assert((i + 1) as int * u32::MAX as int == i as int * u32::MAX as int + u32::MAX as int)
                by (nonlinear_arith);
            assert(i as int * u32::MAX as int <= usize::MAX as int * u32::MAX as int)
                by (nonlinear_arith)
                requires
                    i <= usize::MAX,
            ;
        }
        acc = acc + per_core[i] as u128;
        i += 1;
    }
    assert(per_core@.subrange(0, n as int) =~= per_core@);
    let avg = acc / (n as u128);
    proof {
        assert(acc as int / n as int <= u32::MAX) by (nonlinear_arith)
            requires
                acc <= n as int * u32::MAX as int,
                n > 0,
        ;
    }
    avg as u32
}

/// Bytes per second over an interval of `interval_ms` milliseconds, rounded
/// down and held to the range of a `u64`.
pub open spec fn rate(bytes: u64, interval_ms: u64) -> u64 {
    let r = bytes as int * 1000 / interval_ms as int;
    if r > u64::MAX {
        u64::MAX
    } else {
        r as u64
    }
}

pub fn net_rate(bytes: u64, interval_ms: u64) -> (r: u64)
    requires
        interval_ms > 0,
    ensures
        r == rate(bytes, interval_ms),
{
    let q = (bytes as u128 * 1000) / (interval_ms as u128);
    if q > u64::MAX as u128 {
        u64::MAX
    } else {
        q as u64
    }
}

/// Combined traffic of one interface, held to the range of a `u64`.
pub open spec fn traffic(n: (String, u64, u64)) -> int {
    if n.1 as int + n.2 as int > u64::MAX {
        u64::MAX as int
    } else {
        n.1 as int + n.2 as int
    }
}

/// Index of the interface with the most traffic, loopback (`lo`) left out;
/// of several with the same traffic the last one.
pub open spec fn busiest(nets: Seq<(String, u64, u64)>) -> Option<int>
    decreases nets.len(),
{
    if nets.len() == 0 {
        None
    } else {
        let last = nets.len() - 1;
        let b = busiest(nets.drop_last());
        if nets[last].0@ == "lo"@ {
            b
        } else {
            match b {
                Some(k) => if traffic(nets[last]) >= traffic(nets[k]) {
                    Some(last)
                } else {
                    Some(k)
                },
                None => Some(last),
            }
        }
    }
}

pub proof fn lemma_busiest_in_range(nets: Seq<(String, u64, u64)>)
    ensures
        busiest(nets) matches Some(k) ==> 0 <= k < nets.len(),
    decreases nets.len(),
{
    if nets.len() > 0 {
        lemma_busiest_in_range(nets.drop_last());
    }
}

/// Name of the busiest interface (empty when there is none but loopback).
pub fn primary_interface(nets: &Vec<(String, u64, u64)>) -> (r: String)
    ensures
        r@ == match busiest(nets@) {
            Some(k) => nets@[k].0@,
            None => Seq::empty(),
        },
{
    let mut best: Option<usize> = None;
    let mut i: usize = 0;
    while i < nets.len()
        invariant
            i <= nets@.len(),
            best == (match busiest(nets@.subrange(0, i as int)) {
                Some(k) => Some(k as usize),
                None => None::<usize>,
            }),
            best matches Some(k) ==> k < i,
        decreases nets@.len() - i,
    {
        let ghost pre = nets@.subrange(0, i as int);
        let ghost next = nets@.subrange(0, i + 1);
        assert(next.drop_last() =~= pre);
        proof {
            lemma_busiest_in_range(pre);
        }
        if !eq_str(&chars_of(nets[i].0.as_str()), "lo") {
            let t = nets[i].1.saturating_add(nets[i].2);
            match best {
                Some(k) => {
                    let tk = nets[k].1.saturating_add(nets[k].2);
                    assert(next[k as int] == nets@[k as int]);
                    if t >= tk {
                        best = Some(i);
                    }
                },
                None => {
                    best = Some(i);
                },
            }
        }
        i += 1;
    }
    assert(nets@.subrange(0, nets@.len() as int) =~= nets@);
    proof {
        lemma_busiest_in_range(nets@);
    }
    match best {
        Some(k) => nets[k].0.clone(),
        None => String::new(),
    }
}

/// Used and total bytes of the file system mounted at `/`, from
/// `(mount point, total, available)` triples; `(0, 0)` when none is.
pub open spec fn root_usage(disks: Seq<(String, u64, u64)>) -> (u64, u64)
    decreases disks.len(),
{
    if disks.len() == 0 {
        (0, 0)
    } else if disks[0].0@ == "/"@ {
        let d = disks[0];
        ((if d.2 > d.1 {
            0
        } else {
            (d.1 - d.2) as u64
        }), d.1)
    } else {
        root_usage(disks.drop_first())
    }
}

pub fn root_disk_usage(disks: &Vec<(String, u64, u64)>) -> (r: (u64, u64))
    ensures
        r == root_usage(disks@),
{
    let mut i: usize = 0;
    assert(disks@.subrange(0, disks@.len() as int) =~= disks@);
    while i < disks.len()
        invariant
            i <= disks@.len(),
            root_usage(disks@) == root_usage(disks@.subrange(i as int, disks@.len() as int)),
        decreases disks@.len() - i,
    {
        let ghost rest = disks@.subrange(i as int, disks@.len() as int);
        assert(rest[0] == disks@[i as int]);
        if eq_str(&chars_of(disks[i].0.as_str()), "/") {
            let total = disks[i].1;
            let avail = disks[i].2;
            return (total.saturating_sub(avail), total);
        }
        assert(rest.drop_first() =~= disks@.subrange(i + 1, disks@.len() as int));
        i += 1;
    }
    (0, 0)
}

/// What `u8::from_str` accepts: the `u32` grammar with a value below 256.
pub open spec fn parse_u8(s: Seq<char>) -> Option<u8> {
    match parse_u32(s) {
        Some(v) => if v <= 255 {
            Some(v as u8)
        } else {
            None
        },
        None => None,
    }
}

/// Charge level and charging flag from the battery's `capacity` and `status`
/// files: a full or charging battery counts as charging.
pub fn parse_battery(capacity: &str, status: &str) -> (r: Option<(u8, bool)>)
    ensures
        r == match parse_u8(trim(capacity@)) {
            Some(p) => Some((p, trim(status@) == "Charging"@ || trim(status@) == "Full"@)),
            None => None::<(u8, bool)>,
        },
{
    match parse_u32_exec(&trim_chars(&chars_of(capacity))) {
        Some(v) => if v <= 255 {
            let st = trim_chars(&chars_of(status));
            Some((v as u8, eq_str(&st, "Charging") || eq_str(&st, "Full")))
        } else {
            None
        },
        None => None,
    }
}

/// Counters of one battery, each `None` when its file cannot be read.
#[derive(Debug, Clone)]
pub struct BatteryCounters {
    pub energy_now: Option<u64>,
    pub energy_full: Option<u64>,
    pub power_now: Option<u64>,
    pub charge_now: Option<u64>,
    pub charge_full: Option<u64>,
    pub current_now: Option<u64>,
    /// Contents of the `status` file (empty when unreadable).
    pub status: String,
}

/// Minutes until empty (or, when charging, until full) at a steady `rate`,
/// cut to 32 bits.
pub open spec fn minutes(now: u64, full: u64, rate: u64, charging: bool) -> u32 {
    let left = if charging {
        if full >= now {
            full - now
        } else {
            0
        }
    } else {
        now as int
    };
    ((left * 60 / rate as int) % 0x1_0000_0000) as u32
}

/// Minutes left for one battery: from energy and power when both are known
/// and the power is not zero, else from charge and current likewise.
pub open spec fn battery_minutes(b: BatteryCounters) -> Option<u32> {
    let charging = trim(b.status@) == "Charging"@;
    if b.energy_now is Some && b.energy_full is Some && b.power_now is Some && b.power_now->0 > 0 {
        Some(minutes(b.energy_now->0, b.energy_full->0, b.power_now->0, charging))
    } else if b.charge_now is Some && b.charge_full is Some && b.current_now is Some
        && b.current_now->0 > 0 {
        Some(minutes(b.charge_now->0, b.charge_full->0, b.current_now->0, charging))
    } else {
        None
    }
}

fn minutes_exec(now: u64, full: u64, rate: u64, charging: bool) -> (r: u32)
    requires
        rate > 0,
    ensures
        r == minutes(now, full, rate, charging),
{
    let left: u128 = if charging {
        full.saturating_sub(now) as u128
    } else {
        now as u128
    };
    let m = left * 60 / rate as u128;
    (m % 0x1_0000_0000) as u32
}

/// Minutes left, from the first battery whose counters allow an estimate.
pub open spec fn first_estimate(bs: Seq<BatteryCounters>) -> Option<u32>
    decreases bs.len(),
{
    if bs.len() == 0 {
        None
    } else {
        match battery_minutes(bs[0]) {
            Some(m) => Some(m),
            None => first_estimate(bs.drop_first()),
        }
    }
}

pub fn read_battery_time(batteries: &Vec<BatteryCounters>) -> (r: Option<u32>)
    ensures
        r == first_estimate(batteries@),
{
    let mut i: usize = 0;
    assert(batteries@.subrange(0, batteries@.len() as int) =~= batteries@);
    while i < batteries.len()
        invariant
            i <= batteries@.len(),
            first_estimate(batteries@) == first_estimate(
                batteries@.subrange(i as int, batteries@.len() as int),
            ),
        decreases batteries@.len() - i,
    {
        let ghost rest = batteries@.subrange(i as int, batteries@.len() as int);
        assert(rest[0] == batteries@[i as int]);
        let b = &batteries[i];
        let charging = eq_str(&trim_chars(&chars_of(b.status.as_str())), "Charging");
        match (b.energy_now, b.energy_full, b.power_now) {
            (Some(e_now), Some(e_full), Some(power)) => {
                if power > 0 {
                    return Some(minutes_exec(e_now, e_full, power, charging));
                }
            },
            _ => {},
        }
        match (b.charge_now, b.charge_full, b.current_now) {
            (Some(c_now), Some(c_full), Some(current)) => {
                if current > 0 {
                    return Some(minutes_exec(c_now, c_full, current, charging));
                }
            },
            _ => {},
        }
        assert(rest.drop_first() =~= batteries@.subrange(i + 1, batteries@.len() as int));
        i += 1;
    }
    None
}

/// Backlight level in percent, held to 100; `None` when `max` is 0.
pub fn brightness_percent(current: u64, max: u64) -> (r: Option<u8>)
    ensures
        max == 0 ==> r is None,
        max > 0 ==> r == Some(
            (if current as int * 100 / max as int > 100 {
                100
            } else {
                current as int * 100 / max as int
            }) as u8,
        ),
{
    if max == 0 {
        None
    } else {
        let p = (current as u128 * 100) / max as u128;
        if p > 100 {
            Some(100)
        } else {
            Some(p as u8)
        }
    }
}

/// What the media player's status line says: `None` when no track is loaded
/// (stopped or empty), else whether it is playing.
pub fn media_status(status: &str) -> (r: Option<bool>)
    ensures
        r == (if trim(status@) == "Stopped"@ || trim(status@).len() == 0 {
            None
        } else {
            Some(trim(status@) == "Playing"@)
        }),
{
    let s = trim_chars(&chars_of(status));
    if eq_str(&s, "Stopped") || s.len() == 0 {
        None
    } else {
        Some(eq_str(&s, "Playing"))
    }
}

/// A command's output as shown: trimmed; `None` when nothing is left.
pub fn trimmed_output(out: &str) -> (r: Option<String>)
    ensures
        trim(out@).len() == 0 ==> r is None,
        trim(out@).len() > 0 ==> (r matches Some(s) && s@ == trim(out@)),
{
    let t = trim_chars(&chars_of(out));
    if t.len() == 0 {
        None
    } else {
        Some(string_from(&t))
    }
}

/// Everything the sampler read in one tick.
#[derive(Debug, Clone)]
pub struct Readings {
    /// Per-core usage, in hundredths of a percent.
    pub cpu_per_core: Vec<u32>,
    pub ram_used: u64,
    pub ram_total: u64,
    pub swap_used: u64,
    pub swap_total: u64,
    /// Mounted file systems: mount point, total bytes, available bytes.
    pub disks: Vec<(String, u64, u64)>,
    /// Interfaces: name, bytes received and sent since the last refresh.
    pub networks: Vec<(String, u64, u64)>,
    /// Length of the sampling interval in milliseconds.
    pub interval_ms: u64,
    /// Signal level of the busiest interface, when it is wireless.
    pub net_signal: Option<i32>,
    pub battery: Option<(u8, bool)>,
    pub battery_time_min: Option<u32>,
    pub cpu_temp: Option<i32>,
    pub volume: Option<u32>,
    pub volume_muted: bool,
    pub brightness: Option<u8>,
    pub uptime_secs: u64,
    pub load_1: u32,
    pub load_5: u32,
    pub load_15: u32,
    pub media_title: Option<String>,
    pub media_artist: Option<String>,
    pub media_playing: bool,
    pub custom_output: String,
}

/// Total of the second (or third) column of the interface list, held to
/// the range of a `u64`.
pub open spec fn total_rx(nets: Seq<(String, u64, u64)>) -> int
    decreases nets.len(),
{
    if nets.len() == 0 {
        0
    } else {
        let t = total_rx(nets.drop_last()) + nets.last().1;
        if t > u64::MAX {
            u64::MAX as int
        } else {
            t
        }
    }
}

pub open spec fn total_tx(nets: Seq<(String, u64, u64)>) -> int
    decreases nets.len(),
{
    if nets.len() == 0 {
        0
    } else {
        let t = total_tx(nets.drop_last()) + nets.last().2;
        if t > u64::MAX {
            u64::MAX as int
        } else {
            t
        }
    }
}

fn totals(nets: &Vec<(String, u64, u64)>) -> (r: (u64, u64))
    ensures
        r.0 as int == total_rx(nets@),
        r.1 as int == total_tx(nets@),
{
    let mut rx: u64 = 0;
    let mut tx: u64 = 0;
    let mut i: usize = 0;
    while i < nets.len()
        invariant
            i <= nets@.len(),
            rx as int == total_rx(nets@.subrange(0, i as int)),
            tx as int == total_tx(nets@.subrange(0, i as int)),
        decreases nets@.len() - i,
    {
        assert(nets@.subrange(0, i + 1).drop_last() =~= nets@.subrange(0, i as int));
        rx = rx.saturating_add(nets[i].1);
        tx = tx.saturating_add(nets[i].2);
        i += 1;
    }
    assert(nets@.subrange(0, nets@.len() as int) =~= nets@);
    (rx, tx)
}

/// One snapshot from one tick's readings: the CPU mean, the root file
/// system's usage, network rates and the busiest interface are computed;
/// every other field is passed on as read.
pub fn take_snapshot(rd: Readings) -> (r: SystemSnapshot)
    requires
        rd.interval_ms > 0,
    ensures
        r.cpu_per_core@ == rd.cpu_per_core@,
        r.cpu_average as int == mean(rd.cpu_per_core@),
        r.ram_used == rd.ram_used && r.ram_total == rd.ram_total,
        r.swap_used == rd.swap_used && r.swap_total == rd.swap_total,
        (r.disk_used, r.disk_total) == root_usage(rd.disks@),
        r.net_rx == rate(total_rx(rd.networks@) as u64, rd.interval_ms),
        r.net_tx == rate(total_tx(rd.networks@) as u64, rd.interval_ms),
        r.net_interface@ == match busiest(rd.networks@) {
            Some(k) => rd.networks@[k].0@,
            None => Seq::empty(),
        },
        r.net_signal == (if r.net_interface@.len() == 0 {
            None
        } else {
            rd.net_signal
        }),
        r.battery_percent == (match rd.battery {
            Some((p, _)) => Some(p),
            None => None::<u8>,
        }),
        r.battery_charging == (match rd.battery {
            Some((_, c)) => Some(c),
            None => None::<bool>,
        }),
        r.battery_time_min == rd.battery_time_min,
        r.cpu_temp == rd.cpu_temp,
        r.volume == rd.volume && r.volume_muted == rd.volume_muted,
        r.brightness == rd.brightness,
        r.uptime_secs == rd.uptime_secs,
        r.load_1 == rd.load_1 && r.load_5 == rd.load_5 && r.load_15 == rd.load_15,
        r.media_title == rd.media_title && r.media_artist == rd.media_artist,
        r.media_playing == rd.media_playing,
        r.custom_output == rd.custom_output,
{
    let cpu_average = cpu_average(&rd.cpu_per_core);
    let (disk_used, disk_total) = root_disk_usage(&rd.disks);
    let (raw_rx, raw_tx) = totals(&rd.networks);
    let net_interface = primary_interface(&rd.networks);
    let net_signal = if net_interface.as_str().is_empty() {
        None
    } else {
        rd.net_signal
    };
    let (battery_percent, battery_charging) = match rd.battery {
        Some((p, c)) => (Some(p), Some(c)),
        None => (None, None),
    };
    SystemSnapshot {
        cpu_per_core: rd.cpu_per_core,
        cpu_average,
        ram_used: rd.ram_used,
        ram_total: rd.ram_total,
        swap_used: rd.swap_used,
        swap_total: rd.swap_total,
        disk_used,
        disk_total,
        net_rx: net_rate(raw_rx, rd.interval_ms),
        net_tx: net_rate(raw_tx, rd.interval_ms),
        net_interface,
        net_signal,
        battery_percent,
        battery_charging,
        battery_time_min: rd.battery_time_min,
        cpu_temp: rd.cpu_temp,
        volume: rd.volume,
        volume_muted: rd.volume_muted,
        brightness: rd.brightness,
        uptime_secs: rd.uptime_secs,
        load_1: rd.load_1,
        load_5: rd.load_5,
        load_15: rd.load_15,
        media_title: rd.media_title,
        media_artist: rd.media_artist,
        media_playing: rd.media_playing,
        custom_output: rd.custom_output,
    }
}

/// What `i32::from_str` accepts: an optional sign, then one or more decimal
/// digits whose value fits in an `i32`.
pub open spec fn parse_i32(s: Seq<char>) -> Option<i32> {
    if s.len() > 0 && s[0] == '-' {
        let d = s.drop_first();
        if d.len() > 0 && d[0] != '+' {
            match parse_u32(d) {
                Some(v) => if v <= 0x8000_0000 {
                    Some((-(v as int)) as i32)
                } else {
                    None
                },
                None => None,
            }
        } else {
            None
        }
    } else {
        match parse_u32(s) {
            Some(v) => if v <= i32::MAX {
                Some(v as i32)
            } else {
                None
            },
            None => None,
        }
    }
}

pub fn parse_i32_exec(v: &Vec<char>) -> (r: Option<i32>)
    ensures
        r == parse_i32(v@),
{
    if v.len() > 0 && v[0] == '-' {
        let d = crate::text::slice(v, 1, v.len());
        assert(d@ =~= v@.drop_first());
        if d.len() > 0 && d[0] != '+' {
            match parse_u32_exec(&d) {
                Some(n) => if n <= 0x8000_0000 {
                    if n == 0x8000_0000 {
                        Some(i32::MIN)
                    } else {
                        Some(-(n as i32))
                    }
                } else {
                    None
                },
                None => None,
            }
        } else {
            None
        }
    } else {
        match parse_u32_exec(v) {
            Some(n) => if n <= i32::MAX as u32 {
                Some(n as i32)
            } else {
                None
            },
            None => None,
        }
    }
}

/// `s` without its trailing `.` characters.
pub open spec fn strip_dots(s: Seq<char>) -> Seq<char>
    decreases s.len(),
{
    if s.len() > 0 && s.last() == '.' {
        strip_dots(s.drop_last())
    } else {
        s
    }
}

fn strip_dots_exec(v: &Vec<char>) -> (r: Vec<char>)
    ensures
        r@ == strip_dots(v@),
{
    let mut hi: usize = v.len();
    assert(v@.subrange(0, hi as int) =~= v@);
    while hi > 0 && v[hi - 1] == '.'
        invariant
            hi <= v@.len(),
            strip_dots(v@) == strip_dots(v@.subrange(0, hi as int)),
        decreases hi,
    {
        assert(v@.subrange(0, hi as int).drop_last() =~= v@.subrange(0, hi - 1));
        hi -= 1;
    }
    crate::text::slice(v, 0, hi)
}

/// What `str::lines` yields: the pieces between line feeds, without the
/// empty piece after a final line feed.
pub open spec fn lines(s: Seq<char>) -> Seq<Seq<char>> {
    let p = split_char(s, '\n');
    if p.last().len() == 0 {
        p.drop_last()
    } else {
        p
    }
}

/// The level that the wireless table gives for `iface`, scanning rows from
/// `i`: each row is `name: status link level ...`; a row without a colon,
/// or the interface's row without a level, ends the scan with nothing.
pub open spec fn scan_rows(rows: Seq<Seq<char>>, iface: Seq<char>, i: int) -> Option<i32>
    decreases rows.len() - i,
{
    if i < 0 || i >= rows.len() {
        None
    } else {
        match split_once(trim(rows[i]), ":"@) {
            None => None,
            Some((name, rest)) => if trim(name) != iface {
                scan_rows(rows, iface, i + 1)
            } else {
                let w = words(rest);
                if w.len() < 3 {
                    None
                } else {
                    parse_i32(strip_dots(w[2]))
                }
            },
        }
    }
}

/// Signal level in dBm of `iface`, from the text of the wireless table (two
/// header lines, then one row per wireless interface); `None` for an
/// interface not listed (a wired one).
pub open spec fn wifi_signal(content: Seq<char>, iface: Seq<char>) -> Option<i32> {
    scan_rows(lines(content), iface, 2)
}

pub fn parse_wifi_signal(content: &str, iface: &str) -> (r: Option<i32>)
    ensures
        r == wifi_signal(content@, iface@),
{
    let v = chars_of(content);
    let pieces = split_on_char(&v, '\n');
    proof {
        crate::text::lemma_split_char_nonempty(v@, '\n');
    }
    let ghost rows = lines(v@);
    let n = if pieces[pieces.len() - 1].len() == 0 {
        pieces.len() - 1
    } else {
        pieces.len()
    };
    assert(rows.len() == n);
    let ifc = chars_of(iface);
    let colon = chars_of(":");
    let mut i: usize = 2;
    while i < n
        invariant
            2 <= i,
            n == rows.len(),
            n <= pieces@.len(),
            rows == lines(v@),
            v@ == content@,
            pieces@.len() == split_char(v@, '\n').len(),
            forall|k: int| 0 <= k < pieces@.len() ==> (#[trigger] pieces@[k])@ == split_char(v@, '\n')[k],
            ifc@ == iface@,
            colon@ == ":"@,
            scan_rows(rows, iface@, 2) == scan_rows(rows, iface@, i as int),
        decreases n - i,
    {
        assert(pieces@[i as int]@ == rows[i as int]);
        let l = trim_chars(&pieces[i]);
        match split_once_exec(&l, &colon) {
            None => {
                return None;
            },
            Some((name, rest)) => {
                if eq_chars(&trim_chars(&name), &ifc) {
                    let w = words_exec(&rest);
                    assert(w@.map_values(|x: Vec<char>| x@).len() == w@.len());
                    if w.len() < 3 {
                        return None;
                    }
                    assert(w@[2]@ == words(rest@)[2]);
                    let lvl = strip_dots_exec(&w[2]);
                    return parse_i32_exec(&lvl);
                }
            },
        }
        i += 1;
    }
    None
}

/// A sensor label that names the CPU package or die.
pub open spec fn package_label(l: Seq<char>) -> bool {
    let low = lower_of(l);
    crate::text::contains(low, "package"@) || crate::text::contains(low, "tdie"@)
        || crate::text::contains(low, "tctl"@)
}

/// A sensor label that names a CPU or its first core.
pub open spec fn core_label(l: Seq<char>) -> bool {
    let low = lower_of(l);
    crate::text::contains(low, "cpu"@) || crate::text::contains(low, "core 0"@)
}

/// Position of the first label that `package` (or else `core`) accepts.
pub open spec fn first_label(labels: Seq<String>, package: bool, i: int) -> Option<int>
    decreases labels.len() - i,
{
    if i < 0 || i >= labels.len() {
        None
    } else if (if package {
        package_label(labels[i]@)
    } else {
        core_label(labels[i]@)
    }) {
        Some(i)
    } else {
        first_label(labels, package, i + 1)
    }
}

/// The sensor that gives the CPU temperature: the first whose label names
/// the package or die, else the first that names a CPU or core 0 (labels
/// compared in lower case).
pub open spec fn cpu_sensor(labels: Seq<String>) -> Option<int> {
    match first_label(labels, true, 0) {
        Some(i) => Some(i),
        None => first_label(labels, false, 0),
    }
}

fn label_matches(label: &String, package: bool) -> (r: bool)
    ensures
        r == (if package {
            package_label(label@)
        } else {
            core_label(label@)
        }),
{
    let low = chars_of(lowercase(label.as_str()).as_str());
    if package {
        crate::text::contains_exec(&low, &chars_of("package"))
            || crate::text::contains_exec(&low, &chars_of("tdie"))
            || crate::text::contains_exec(&low, &chars_of("tctl"))
    } else {
        crate::text::contains_exec(&low, &chars_of("cpu"))
            || crate::text::contains_exec(&low, &chars_of("core 0"))
    }
}

fn first_label_exec(labels: &Vec<String>, package: bool) -> (r: Option<usize>)
    ensures
        match first_label(labels@, package, 0) {
            Some(i) => r == Some(i as usize),
            None => r is None,
        },
{
    let mut i: usize = 0;
    while i < labels.len()
        invariant
            i <= labels@.len(),
            first_label(labels@, package, 0) == first_label(labels@, package, i as int),
        decreases labels@.len() - i,
    {
        if label_matches(&labels[i], package) {
            return Some(i);
        }
        i += 1;
    }
    None
}

/// Which sensor, of those with these labels, reports the CPU temperature.
pub fn pick_cpu_sensor(labels: &Vec<String>) -> (r: Option<usize>)
    ensures
        match cpu_sensor(labels@) {
            Some(i) => r == Some(i as usize),
            None => r is None,
        },
{
    match first_label_exec(labels, true) {
        Some(i) => Some(i),
        None => first_label_exec(labels, false),
    }
}

} // verus!
