//! The bar's widgets: the text each one shows, computed from the state and
//! the theme.  Drawing the text is left to the caller.
use vstd::prelude::*;
use crate::state::{percent_u8, AppState, SystemSnapshot, WorkspaceInfo};
use crate::text::{
    chars_of, dec, idec, join_chars, join_with, push_chars, push_dec, push_idec, push_str, slice,
    string_from,
};
use crate::theme::Theme;

verus! {

pub const KIB: u64 = 1024;

pub const MIB: u64 = 1048576;

pub const GIB: u64 = 1073741824;

/// `n / d` rounded to the nearest integer, ties to the even one (the way
/// `{:.N}` formatting rounds an exactly representable value).
pub open spec fn round_half_even(n: nat, d: nat) -> nat
    recommends
        d > 0,
{
    let q = n / d;
    let r = n % d;
    if 2 * r > d {
        q + 1
    } else if 2 * r < d {
        q
    } else if q % 2 == 0 {
        q
    } else {
        q + 1
    }
}

fn round_half_even_exec(n: u128, d: u128) -> (r: u128)
    requires
        d > 0,
        n < u128::MAX / 4,
        d < u128::MAX / 4,
    ensures
        r == round_half_even(n as nat, d as nat),
{
    let q = n / d;
    let rem = n % d;
    if 2 * rem > d {
        q + 1
    } else if 2 * rem < d {
        q
    } else if q % 2 == 0 {
        q
    } else {
        q + 1
    }
}

/// A count of tenths written with one decimal: `t / 10` `.` `t % 10`.
pub open spec fn one_decimal(t: nat) -> Seq<char> {
    dec(t / 10) + "."@ + dec(t % 10)
}

fn push_one_decimal(out: &mut Vec<char>, t: u64)
    ensures
        final(out)@ == old(out)@ + one_decimal(t as nat),
{
    push_dec(out, t / 10);
    push_str(out, ".");
    push_dec(out, t % 10);
    assert(final(out)@ =~= old(out)@ + one_decimal(t as nat));
}

/// A byte count in binary units with one decimal, e.g. `7.3 GiB`; below one
/// KiB the exact count, e.g. `512 B`.
pub open spec fn bytes_text(b: u64) -> Seq<char> {
    if b >= GIB {
        one_decimal(round_half_even(b as nat * 10, GIB as nat)) + " GiB"@
    } else if b >= MIB {
        one_decimal(round_half_even(b as nat * 10, MIB as nat)) + " MiB"@
    } else if b >= KIB {
        one_decimal(round_half_even(b as nat * 10, KIB as nat)) + " KiB"@
    } else {
        dec(b as nat) + " B"@
    }
}

proof fn lemma_tenths_fit(b: u64, unit: u64)
    requires
        unit >= 1024,
    ensures
        round_half_even(b as nat * 10, unit as nat) <= u64::MAX,
{
    let q = (b as nat * 10) / unit as nat;
    assert(q <= (b as nat * 10) / 1024) by {
        vstd::arithmetic::div_mod::lemma_div_is_ordered_by_denominator(
            (b as nat * 10) as int,
            1024,
            unit as int,
        );
    }
}

/// Format a byte count as a human-readable string (e.g. `"7.3 GiB"`).
pub fn format_bytes(bytes: u64) -> (r: String)
    ensures
        r@ == bytes_text(bytes),
{
    let mut out: Vec<char> = Vec::new();
    if bytes >= GIB {
        proof {
            lemma_tenths_fit(bytes, GIB);
        }
        let t = round_half_even_exec(bytes as u128 * 10, GIB as u128) as u64;
        push_one_decimal(&mut out, t);
        push_str(&mut out, " GiB");
    } else if bytes >= MIB {
        proof {
            lemma_tenths_fit(bytes, MIB);
        }
        let t = round_half_even_exec(bytes as u128 * 10, MIB as u128) as u64;
        push_one_decimal(&mut out, t);
        push_str(&mut out, " MiB");
    } else if bytes >= KIB {
        proof {
            lemma_tenths_fit(bytes, KIB);
        }
        let t = round_half_even_exec(bytes as u128 * 10, KIB as u128) as u64;
        push_one_decimal(&mut out, t);
        push_str(&mut out, " KiB");
    } else {
        push_dec(&mut out, bytes);
        push_str(&mut out, " B");
    }
    assert(out@ =~= bytes_text(bytes));
    string_from(&out)
}

/// A rate in bytes per second in decimal units: `1.5M`, `12K` or `512B`.
pub open spec fn rate_text(bps: u64) -> Seq<char> {
    if bps >= 1_000_000 {
        one_decimal(round_half_even(bps as nat * 10, 1_000_000)) + "M"@
    } else if bps >= 1000 {
        dec(round_half_even(bps as nat, 1000)) + "K"@
    } else {
        dec(bps as nat) + "B"@
    }
}

/// Format a bytes-per-second rate into a human-readable string.
pub fn format_rate(bps: u64) -> (r: String)
    ensures
        r@ == rate_text(bps),
{
    let mut out: Vec<char> = Vec::new();
    if bps >= 1_000_000 {
        proof {
            lemma_tenths_fit(bps, 1_000_000);
        }
        let t = round_half_even_exec(bps as u128 * 10, 1_000_000) as u64;
        push_one_decimal(&mut out, t);
        push_str(&mut out, "M");
    } else if bps >= 1000 {
        let t = round_half_even_exec(bps as u128, 1000) as u64;
        push_dec(&mut out, t);
        push_str(&mut out, "K");
    } else {
        push_dec(&mut out, bps);
        push_str(&mut out, "B");
    }
    assert(out@ =~= rate_text(bps));
    string_from(&out)
}

/// Uptime in its two largest units: `2d 3h`, `5h 12m`, or minutes (at least 1).
pub open spec fn uptime_text(secs: u64) -> Seq<char> {
    let mins = secs as nat / 60;
    let hours = mins / 60;
    let days = hours / 24;
    if days > 0 {
        dec(days) + "d "@ + dec(hours % 24) + "h"@
    } else if hours > 0 {
        dec(hours) + "h "@ + dec(mins % 60) + "m"@
    } else {
        dec(if mins == 0 {
            1
        } else {
            mins
        }) + "m"@
    }
}

pub fn fmt_uptime(secs: u64) -> (r: String)
    ensures
        r@ == uptime_text(secs),
{
    let mins = secs / 60;
    let hours = mins / 60;
    let days = hours / 24;
    let mut out: Vec<char> = Vec::new();
    if days > 0 {
        push_dec(&mut out, days);
        push_str(&mut out, "d ");
        push_dec(&mut out, hours % 24);
        push_str(&mut out, "h");
    } else if hours > 0 {
        push_dec(&mut out, hours);
        push_str(&mut out, "h ");
        push_dec(&mut out, mins % 60);
        push_str(&mut out, "m");
    } else {
        push_dec(&mut out, if mins == 0 { 1 } else { mins });
        push_str(&mut out, "m");
    }
    assert(out@ =~= uptime_text(secs));
    string_from(&out)
}

/// Minutes as `1h 23m` or `45m`; empty when unknown or zero.
pub open spec fn time_text(mins: Option<u32>) -> Seq<char> {
    match mins {
        Some(m) => if m == 0 {
            Seq::empty()
        } else if m >= 60 {
            dec(m as nat / 60) + "h "@ + dec(m as nat % 60) + "m"@
        } else {
            dec(m as nat) + "m"@
        },
        None => Seq::empty(),
    }
}

/// Format minutes into a compact human-readable string: "1h 23m" or "45m".
pub fn format_time(mins: Option<u32>) -> (r: String)
    ensures
        r@ == time_text(mins),
{
    let mut out: Vec<char> = Vec::new();
    match mins {
        Some(m) => {
            if m >= 60 {
                push_dec(&mut out, m as u64 / 60);
                push_str(&mut out, "h ");
                push_dec(&mut out, m as u64 % 60);
                push_str(&mut out, "m");
            } else if m > 0 {
                push_dec(&mut out, m as u64);
                push_str(&mut out, "m");
            }
        },
        None => {},
    }
    assert(out@ =~= time_text(mins));
    string_from(&out)
}

/// The battery glyph: a bolt while charging, else a bar by charge level.
pub open spec fn battery_glyph(pct: u8, charging: bool) -> Seq<char> {
    if charging {
        "\u{26a1}"@
    } else if pct >= 80 && pct <= 100 {
        "\u{2588}"@
    } else if pct >= 60 && pct <= 79 {
        "\u{258a}"@
    } else if pct >= 40 && pct <= 59 {
        "\u{258c}"@
    } else if pct >= 20 && pct <= 39 {
        "\u{258e}"@
    } else {
        "\u{258f}"@
    }
}

pub fn battery_icon(pct: u8, charging: bool) -> (r: &'static str)
    ensures
        r@ == battery_glyph(pct, charging),
{
    if charging {
        return "\u{26a1}";
    }
    if 80 <= pct && pct <= 100 {
        "\u{2588}"
    } else if 60 <= pct && pct <= 79 {
        "\u{258a}"
    } else if 40 <= pct && pct <= 59 {
        "\u{258c}"
    } else if 20 <= pct && pct <= 39 {
        "\u{258e}"
    } else {
        "\u{258f}"
    }
}

/// A wireless signal level in dBm with a strength glyph (or bars, without
/// icon fonts); a placeholder when the level is unknown.
pub open spec fn signal_text(dbm: Option<i32>, nerd: bool) -> Seq<char> {
    match dbm {
        None => if nerd {
            "\u{f092d}"@
        } else {
            "-- dBm"@
        },
        Some(level) => {
            let icon = if nerd {
                if level >= -50 {
                    "\u{f0928}"@
                } else if level >= -60 {
                    "\u{f0925}"@
                } else if level >= -70 {
                    "\u{f0922}"@
                } else {
                    "\u{f091f}"@
                }
            } else {
                if level >= -50 {
                    "\u{2582}\u{2584}\u{2586}\u{2588}"@
                } else if level >= -60 {
                    "\u{2582}\u{2584}\u{2586}_"@
                } else if level >= -70 {
                    "\u{2582}\u{2584}__"@
                } else {
                    "\u{2582}___"@
                }
            };
            icon + " "@ + idec(level as int) + " dBm"@
        },
    }
}

/// Convert a dBm signal level to a human-readable label with signal bars.
pub fn signal_label(dbm: Option<i32>, nerd: bool) -> (r: String)
    ensures
        r@ == signal_text(dbm, nerd),
{
    let mut out: Vec<char> = Vec::new();
    match dbm {
        None => {
            if nerd {
                push_str(&mut out, "\u{f092d}");
            } else {
                push_str(&mut out, "-- dBm");
            }
        },
        Some(level) => {
            let icon = if nerd {
                if level >= -50 {
                    "\u{f0928}"
                } else if level >= -60 {
                    "\u{f0925}"
                } else if level >= -70 {
                    "\u{f0922}"
                } else {
                    "\u{f091f}"
                }
            } else {
                if level >= -50 {
                    "\u{2582}\u{2584}\u{2586}\u{2588}"
                } else if level >= -60 {
                    "\u{2582}\u{2584}\u{2586}_"
                } else if level >= -70 {
                    "\u{2582}\u{2584}__"
                } else {
                    "\u{2582}___"
                }
            };
            push_str(&mut out, icon);
            push_str(&mut out, " ");
            push_idec(&mut out, level as i64);
            push_str(&mut out, " dBm");
        },
    }
    assert(out@ =~= signal_text(dbm, nerd));
    string_from(&out)
}

#[derive(Debug, Default)]
pub struct BatteryWidget;

impl BatteryWidget {
    pub fn new() -> (r: BatteryWidget) {
        BatteryWidget
    }
}

#[derive(Debug, Default)]
pub struct BrightnessWidget;

impl BrightnessWidget {
    pub fn new() -> (r: BrightnessWidget) {
        BrightnessWidget
    }
}

#[derive(Debug, Default)]
pub struct ClockWidget;

impl ClockWidget {
    pub fn new() -> (r: ClockWidget) {
        ClockWidget
    }
}

#[derive(Debug, Default)]
pub struct CpuWidget;

impl CpuWidget {
    pub fn new() -> (r: CpuWidget) {
        CpuWidget
    }
}

#[derive(Debug, Default)]
pub struct CustomWidget;

impl CustomWidget {
    pub fn new() -> (r: CustomWidget) {
        CustomWidget
    }
}

#[derive(Debug, Default)]
pub struct DiskWidget;

impl DiskWidget {
    pub fn new() -> (r: DiskWidget) {
        DiskWidget
    }
}

#[derive(Debug, Default)]
pub struct KeyboardWidget;

impl KeyboardWidget {
    pub fn new() -> (r: KeyboardWidget) {
        KeyboardWidget
    }
}

#[derive(Debug, Default)]
pub struct LoadWidget;

impl LoadWidget {
    pub fn new() -> (r: LoadWidget) {
        LoadWidget
    }
}

#[derive(Debug, Default)]
pub struct MediaWidget;

impl MediaWidget {
    pub fn new() -> (r: MediaWidget) {
        MediaWidget
    }
}

#[derive(Debug, Default)]
pub struct MemoryWidget;

impl MemoryWidget {
    pub fn new() -> (r: MemoryWidget) {
        MemoryWidget
    }
}

#[derive(Debug, Default)]
pub struct NetworkWidget;

impl NetworkWidget {
    pub fn new() -> (r: NetworkWidget) {
        NetworkWidget
    }
}

#[derive(Debug, Default)]
pub struct NotifyWidget;

impl NotifyWidget {
    pub fn new() -> (r: NotifyWidget) {
        NotifyWidget
    }
}

#[derive(Debug, Default)]
pub struct SeparatorWidget;

impl SeparatorWidget {
    pub fn new() -> (r: SeparatorWidget) {
        SeparatorWidget
    }
}

#[derive(Debug, Default)]
pub struct SwapWidget;

impl SwapWidget {
    pub fn new() -> (r: SwapWidget) {
        SwapWidget
    }
}

#[derive(Debug, Default)]
pub struct TempWidget;

impl TempWidget {
    pub fn new() -> (r: TempWidget) {
        TempWidget
    }
}

#[derive(Debug, Default)]
pub struct TitleWidget;

impl TitleWidget {
    pub fn new() -> (r: TitleWidget) {
        TitleWidget
    }
}

#[derive(Debug, Default)]
pub struct UptimeWidget;

impl UptimeWidget {
    pub fn new() -> (r: UptimeWidget) {
        UptimeWidget
    }
}

#[derive(Debug, Default)]
pub struct VolumeWidget;

impl VolumeWidget {
    pub fn new() -> (r: VolumeWidget) {
        VolumeWidget
    }
}

#[derive(Debug, Default)]
pub struct WorkspaceWidget;

impl WorkspaceWidget {
    pub fn new() -> (r: WorkspaceWidget) {
        WorkspaceWidget
    }
}

/// The battery label: glyph, level and, when known, the time left.
pub open spec fn battery_text(snap: SystemSnapshot) -> Option<Seq<char>> {
    match snap.battery_percent {
        None => None,
        Some(p) => {
            let charging = match snap.battery_charging {
                Some(c) => c,
                None => false,
            };
            let t = time_text(snap.battery_time_min);
            let head = battery_glyph(p, charging) + " "@ + dec(p as nat) + "%"@;
            Some(
                if t.len() == 0 {
                    head
                } else {
                    head + " ("@ + t + ")"@
                },
            )
        },
    }
}

impl BatteryWidget {
    /// `None` when there is no battery.
    pub fn label(&self, state: &AppState) -> (r: Option<String>)
        ensures
            match battery_text(state.system) {
                Some(t) => r matches Some(s) && s@ == t,
                None => r is None,
            },
    {
        let p = match state.system.battery_percent {
            Some(p) => p,
            None => return None,
        };
        let charging = match state.system.battery_charging {
            Some(c) => c,
            None => false,
        };
        let t = format_time(state.system.battery_time_min);
        let mut out: Vec<char> = Vec::new();
        push_str(&mut out, battery_icon(p, charging));
        push_str(&mut out, " ");
        push_dec(&mut out, p as u64);
        push_str(&mut out, "%");
        if !t.as_str().is_empty() {
            push_str(&mut out, " (");
            push_str(&mut out, t.as_str());
            push_str(&mut out, ")");
        }
        assert(out@ =~= battery_text(state.system)->0);
        Some(string_from(&out))
    }

    /// A low battery that is not charging is shown in the accent colour.
    pub fn alert(&self, state: &AppState) -> (r: bool)
        ensures
            r == (state.system.battery_percent matches Some(p) && p <= 15 && !(
            state.system.battery_charging == Some(true))),
    {
        match state.system.battery_percent {
            Some(p) => p <= 15 && !(match state.system.battery_charging {
                Some(c) => c,
                None => false,
            }),
            None => false,
        }
    }
}

impl BrightnessWidget {
    /// `None` when no backlight was found.
    pub fn label(&self, state: &AppState) -> (r: Option<String>)
        ensures
            match state.system.brightness {
                Some(p) => r matches Some(s) && s@ == "\u{f00de} "@ + dec(p as nat) + "%"@,
                None => r is None,
            },
    {
        match state.system.brightness {
            Some(p) => {
                let mut out: Vec<char> = Vec::new();
                push_str(&mut out, "\u{f00de} ");
                push_dec(&mut out, p as u64);
                push_str(&mut out, "%");
                Some(string_from(&out))
            },
            None => None,
        }
    }
}

impl CpuWidget {
    /// The CPU mean as a whole percentage, and RAM used of total.
    pub fn label(&self, state: &AppState) -> (r: (String, String))
        ensures
            r.0@ == " "@ + dec(round_half_even(state.system.cpu_average as nat, 100)) + "%"@,
            r.1@ == " "@ + bytes_text(state.system.ram_used) + "/"@ + bytes_text(state.system.ram_total),
    {
        let mut cpu: Vec<char> = Vec::new();
        push_str(&mut cpu, " ");
        push_dec(&mut cpu, round_half_even_exec(state.system.cpu_average as u128, 100) as u64);
        push_str(&mut cpu, "%");
        let mut ram: Vec<char> = Vec::new();
        push_str(&mut ram, " ");
        push_str(&mut ram, format_bytes(state.system.ram_used).as_str());
        push_str(&mut ram, "/");
        push_str(&mut ram, format_bytes(state.system.ram_total).as_str());
        (string_from(&cpu), string_from(&ram))
    }
}

impl CustomWidget {
    /// `None` when the custom command is not set or printed nothing.
    pub fn label(&self, state: &AppState) -> (r: Option<String>)
        ensures
            state.system.custom_output@.len() == 0 ==> r is None,
            state.system.custom_output@.len() > 0 ==> r == Some(state.system.custom_output),
    {
        if state.system.custom_output.as_str().is_empty() {
            None
        } else {
            Some(state.system.custom_output.clone())
        }
    }
}

/// Disk label: used of total and the whole percentage, rounded.
pub open spec fn disk_text(snap: SystemSnapshot) -> Option<Seq<char>> {
    if snap.disk_total == 0 {
        None
    } else {
        Some(
            "\u{f02ca} "@ + bytes_text(snap.disk_used) + "/"@ + bytes_text(snap.disk_total) + " ("@
                + dec(round_half_even(snap.disk_used as nat * 100, snap.disk_total as nat)) + "%)"@,
        )
    }
}

impl DiskWidget {
    /// `None` when the root file system's size is unknown.
    pub fn label(&self, state: &AppState) -> (r: Option<String>)
        ensures
            match disk_text(state.system) {
                Some(t) => r matches Some(s) && s@ == t,
                None => r is None,
            },
    {
        let total = state.system.disk_total;
        if total == 0 {
            return None;
        }
        let used = state.system.disk_used;
        let mut out: Vec<char> = Vec::new();
        push_str(&mut out, "\u{f02ca} ");
        push_str(&mut out, format_bytes(used).as_str());
        push_str(&mut out, "/");
        push_str(&mut out, format_bytes(total).as_str());
        push_str(&mut out, " (");
        let pct = round_half_even_exec(used as u128 * 100, total as u128);
        crate::text::push_dec_wide(&mut out, pct);
        push_str(&mut out, "%)");
        assert(out@ =~= disk_text(state.system)->0);
        Some(string_from(&out))
    }
}

impl KeyboardWidget {
    /// `None` until a layout is known.
    pub fn label(&self, state: &AppState, theme: &Theme) -> (r: Option<String>)
        ensures
            state.keyboard_layout@.len() == 0 ==> r is None,
            state.keyboard_layout@.len() > 0 ==> (r matches Some(s) && s@ == (if theme.use_nerd_icons {
                "\u{f030c}"@
            } else {
                "KB"@
            }) + " "@ + state.keyboard_layout@),
    {
        if state.keyboard_layout.as_str().is_empty() {
            return None;
        }
        let mut out: Vec<char> = Vec::new();
        push_str(&mut out, if theme.use_nerd_icons { "\u{f030c}" } else { "KB" });
        push_str(&mut out, " ");
        push_str(&mut out, state.keyboard_layout.as_str());
        Some(string_from(&out))
    }
}

/// A count of hundredths with two decimals, e.g. `0.52`.
pub open spec fn two_decimals(h: nat) -> Seq<char> {
    dec(h / 100) + "."@ + dec((h % 100) / 10) + dec(h % 10)
}

fn push_two_decimals(out: &mut Vec<char>, h: u64)
    ensures
        final(out)@ == old(out)@ + two_decimals(h as nat),
{
    push_dec(out, h / 100);
    push_str(out, ".");
    push_dec(out, (h % 100) / 10);
    push_dec(out, h % 10);
    assert(final(out)@ =~= old(out)@ + two_decimals(h as nat));
}

impl LoadWidget {
    /// The three load averages with two decimals each.
    pub fn label(&self, state: &AppState, theme: &Theme) -> (r: String)
        ensures
            r@ == (if theme.use_nerd_icons {
                ""@
            } else {
                "LD"@
            }) + " "@ + two_decimals(state.system.load_1 as nat) + " "@ + two_decimals(
                state.system.load_5 as nat,
            ) + " "@ + two_decimals(state.system.load_15 as nat),
    {
        let mut out: Vec<char> = Vec::new();
        push_str(&mut out, if theme.use_nerd_icons { "" } else { "LD" });
        push_str(&mut out, " ");
        push_two_decimals(&mut out, state.system.load_1 as u64);
        push_str(&mut out, " ");
        push_two_decimals(&mut out, state.system.load_5 as u64);
        push_str(&mut out, " ");
        push_two_decimals(&mut out, state.system.load_15 as u64);
        string_from(&out)
    }
}

impl MemoryWidget {
    /// RAM used of total and the whole percentage.
    pub fn label(&self, state: &AppState) -> (r: String)
        ensures
            r@ == " "@ + bytes_text(state.system.ram_used) + "/"@ + bytes_text(state.system.ram_total)
                + "  "@ + dec(percent_u8(state.system.ram_used, state.system.ram_total) as nat) + "%"@,
    {
        let mut out: Vec<char> = Vec::new();
        push_str(&mut out, " ");
        push_str(&mut out, format_bytes(state.system.ram_used).as_str());
        push_str(&mut out, "/");
        push_str(&mut out, format_bytes(state.system.ram_total).as_str());
        push_str(&mut out, "  ");
        push_dec(&mut out, state.system.ram_percent() as u64);
        push_str(&mut out, "%");
        string_from(&out)
    }
}

impl NotifyWidget {
    /// A bell, followed by the number of notifications when there are any.
    pub fn label(&self, state: &AppState, theme: &Theme) -> (r: String)
        ensures
            ({
                let icon = if theme.use_nerd_icons {
                    "\u{f009a}"@
                } else {
                    "\u{1f514}"@
                };
                r@ == if state.notifications@.len() > 0 {
                    icon + " "@ + dec(state.notifications@.len())
                } else {
                    icon
                }
            }),
    {
        let icon = if theme.use_nerd_icons { "\u{f009a}" } else { "\u{1f514}" };
        let mut out: Vec<char> = Vec::new();
        push_str(&mut out, icon);
        let count = state.notifications.len();
        if count > 0 {
            push_str(&mut out, " ");
            push_dec(&mut out, count as u64);
        }
        string_from(&out)
    }
}

impl SwapWidget {
    /// `None` when no swap is configured.
    pub fn label(&self, state: &AppState) -> (r: Option<String>)
        ensures
            state.system.swap_total == 0 ==> r is None,
            state.system.swap_total > 0 ==> (r matches Some(s) && s@ == "\u{f04e1} "@ + bytes_text(
                state.system.swap_used,
            ) + "/"@ + bytes_text(state.system.swap_total)),
    {
        if state.system.swap_total == 0 {
            return None;
        }
        let mut out: Vec<char> = Vec::new();
        push_str(&mut out, "\u{f04e1} ");
        push_str(&mut out, format_bytes(state.system.swap_used).as_str());
        push_str(&mut out, "/");
        push_str(&mut out, format_bytes(state.system.swap_total).as_str());
        Some(string_from(&out))
    }
}

/// A temperature in hundredths of a degree, as whole degrees.
pub open spec fn degrees_text(t: i32) -> Seq<char> {
    if t < 0 {
        "-"@ + dec(round_half_even((-(t as int)) as nat, 100))
    } else {
        dec(round_half_even(t as nat, 100))
    }
}

impl TempWidget {
    /// `None` when no CPU sensor was found.
    pub fn label(&self, state: &AppState, theme: &Theme) -> (r: Option<String>)
        ensures
            match state.system.cpu_temp {
                Some(t) => r matches Some(s) && s@ == (if theme.use_nerd_icons {
                    ""@
                } else {
                    "TMP"@
                }) + " "@ + degrees_text(t) + "\u{b0}C"@,
                None => r is None,
            },
    {
        let t = match state.system.cpu_temp {
            Some(t) => t,
            None => return None,
        };
        let mut out: Vec<char> = Vec::new();
        push_str(&mut out, if theme.use_nerd_icons { "" } else { "TMP" });
        push_str(&mut out, " ");
        if t < 0 {
            push_str(&mut out, "-");
            let m: u128 = if t == i32::MIN { 2147483648 } else { (-t) as u128 };
            push_dec(&mut out, round_half_even_exec(m, 100) as u64);
        } else {
            push_dec(&mut out, round_half_even_exec(t as u128, 100) as u64);
        }
        push_str(&mut out, "\u{b0}C");
        assert(out@ =~= (if theme.use_nerd_icons {
            ""@
        } else {
            "TMP"@
        }) + " "@ + degrees_text(t) + "\u{b0}C"@);
        Some(string_from(&out))
    }
}

/// Most characters of a window title shown before it is cut.
pub const TITLE_MAX_CHARS: usize = 60;

/// The focused window's title, cut to its first 60 characters and an
/// ellipsis when longer; `Desktop` when no window is focused.
pub open spec fn title_text(t: Option<String>) -> Seq<char> {
    match t {
        Some(s) => if s@.len() > TITLE_MAX_CHARS {
            s@.subrange(0, TITLE_MAX_CHARS as int) + "\u{2026}"@
        } else {
            s@
        },
        None => "Desktop"@,
    }
}

impl TitleWidget {
    pub fn label(&self, state: &AppState) -> (r: String)
        ensures
            r@ == title_text(state.active_window),
    {
        match &state.active_window {
            Some(title) => {
                let cs = chars_of(title.as_str());
                if cs.len() > TITLE_MAX_CHARS {
                    let mut out = slice(&cs, 0, TITLE_MAX_CHARS);
                    push_str(&mut out, "\u{2026}");
                    string_from(&out)
                } else {
                    title.clone()
                }
            },
            None => crate::config::own("Desktop"),
        }
    }
}

impl UptimeWidget {
    pub fn label(&self, state: &AppState, theme: &Theme) -> (r: String)
        ensures
            r@ == (if theme.use_nerd_icons {
                "\u{f051b}"@
            } else {
                "UP"@
            }) + " "@ + uptime_text(state.system.uptime_secs),
    {
        let mut out: Vec<char> = Vec::new();
        push_str(&mut out, if theme.use_nerd_icons { "\u{f051b}" } else { "UP" });
        push_str(&mut out, " ");
        push_str(&mut out, fmt_uptime(state.system.uptime_secs).as_str());
        string_from(&out)
    }
}

/// The volume glyph: muted, or low / medium / high by level.
pub open spec fn volume_glyph(v: u32, muted: bool) -> Seq<char> {
    if muted {
        "\u{f075f}"@
    } else if v < 3300 {
        "\u{f057f}"@
    } else if v < 6600 {
        "\u{f0580}"@
    } else {
        "\u{f057e}"@
    }
}

/// The volume label: `muted`, or the level as a whole percentage rounded
/// half up.
pub open spec fn volume_text(v: u32, muted: bool) -> Seq<char> {
    if muted {
        volume_glyph(v, muted) + " muted"@
    } else {
        volume_glyph(v, muted) + " "@ + dec((v as nat + 50) / 100) + "%"@
    }
}

impl VolumeWidget {
    /// `None` when the volume could not be read.
    pub fn label(&self, state: &AppState) -> (r: Option<String>)
        ensures
            match state.system.volume {
                Some(v) => r matches Some(s) && s@ == volume_text(v, state.system.volume_muted),
                None => r is None,
            },
    {
        let v = match state.system.volume {
            Some(v) => v,
            None => return None,
        };
        let muted = state.system.volume_muted;
        let icon = if muted {
            "\u{f075f}"
        } else if v < 3300 {
            "\u{f057f}"
        } else if v < 6600 {
            "\u{f0580}"
        } else {
            "\u{f057e}"
        };
        let mut out: Vec<char> = Vec::new();
        push_str(&mut out, icon);
        if muted {
            push_str(&mut out, " muted");
        } else {
            push_str(&mut out, " ");
            push_dec(&mut out, (v as u64 + 50) / 100);
            push_str(&mut out, "%");
        }
        assert(out@ =~= volume_text(v, muted));
        Some(string_from(&out))
    }
}

/// Receive and send rates, e.g. `↓1.2M  ↑34K`.
pub open spec fn speed_text(snap: SystemSnapshot) -> Seq<char> {
    "\u{2193}"@ + rate_text(snap.net_rx) + "  \u{2191}"@ + rate_text(snap.net_tx)
}

/// The parts that the theme selects: interface name (when known), signal,
/// speed, in that order.
pub open spec fn network_parts(snap: SystemSnapshot, theme: Theme) -> Seq<Seq<char>> {
    (if theme.network_show_name && snap.net_interface@.len() > 0 {
        seq![snap.net_interface@]
    } else {
        Seq::empty()
    }) + (if theme.network_show_signal {
        seq![signal_text(snap.net_signal, theme.use_nerd_icons)]
    } else {
        Seq::empty()
    }) + (if theme.network_show_speed {
        seq![speed_text(snap)]
    } else {
        Seq::empty()
    })
}

/// The selected parts, two spaces apart; the speed when none is selected.
pub open spec fn network_text(snap: SystemSnapshot, theme: Theme) -> Seq<char> {
    let parts = network_parts(snap, theme);
    if parts.len() == 0 {
        speed_text(snap)
    } else {
        join_with(parts, "  "@)
    }
}

fn speed_chars(snap: &SystemSnapshot) -> (r: Vec<char>)
    ensures
        r@ == speed_text(*snap),
{
    let mut out: Vec<char> = Vec::new();
    push_str(&mut out, "\u{2193}");
    push_str(&mut out, format_rate(snap.net_rx).as_str());
    push_str(&mut out, "  \u{2191}");
    push_str(&mut out, format_rate(snap.net_tx).as_str());
    out
}

impl NetworkWidget {
    pub fn label(&self, state: &AppState, theme: &Theme) -> (r: String)
        ensures
            r@ == network_text(state.system, *theme),
    {
        let snap = &state.system;
        let mut parts: Vec<Vec<char>> = Vec::new();
        let ghost mut ps: Seq<Seq<char>> = Seq::empty();
        if theme.network_show_name && !snap.net_interface.as_str().is_empty() {
            parts.push(chars_of(snap.net_interface.as_str()));
            proof {
                ps = ps.push(snap.net_interface@);
            }
        }
        if theme.network_show_signal {
            parts.push(chars_of(signal_label(snap.net_signal, theme.use_nerd_icons).as_str()));
            proof {
                ps = ps.push(signal_text(snap.net_signal, theme.use_nerd_icons));
            }
        }
        if theme.network_show_speed {
            parts.push(speed_chars(snap));
            proof {
                ps = ps.push(speed_text(*snap));
            }
        }
        assert(parts@.map_values(|p: Vec<char>| p@) =~= ps);
        assert(ps =~= network_parts(*snap, *theme));
        let out = if parts.len() == 0 {
            speed_chars(snap)
        } else {
            join_chars(&parts, "  ")
        };
        string_from(&out)
    }
}

/// Longest artist-and-title text shown whole.
pub const MEDIA_MAX_CHARS: usize = 40;

/// Characters kept of a text that is cut.
pub const MEDIA_CUT_CHARS: usize = 38;

/// The media label: play state glyph, then `artist - title` (or the title
/// alone), cut with an ellipsis when too long; `None` with no track.
pub open spec fn media_text(snap: SystemSnapshot) -> Option<Seq<char>> {
    match snap.media_title {
        None => None,
        Some(title) => {
            let icon = if snap.media_playing {
                "\u{25b6}"@
            } else {
                "\u{23f8}"@
            };
            Some(
                match snap.media_artist {
                    Some(a) if a@.len() > 0 => {
                        let combined = a@ + " - "@ + title@;
                        if combined.len() > MEDIA_MAX_CHARS {
                            icon + " "@ + combined.subrange(0, MEDIA_CUT_CHARS as int) + "\u{2026}"@
                        } else {
                            icon + " "@ + combined
                        }
                    },
                    _ => if title@.len() > MEDIA_CUT_CHARS {
                        icon + " "@ + title@.subrange(0, MEDIA_CUT_CHARS as int) + "\u{2026}"@
                    } else {
                        icon + " "@ + title@
                    },
                },
            )
        },
    }
}

impl MediaWidget {
    /// `None` when no player has a track.
    pub fn label(&self, state: &AppState) -> (r: Option<String>)
        ensures
            match media_text(state.system) {
                Some(t) => r matches Some(s) && s@ == t,
                None => r is None,
            },
    {
        let snap = &state.system;
        let title = match &snap.media_title {
            Some(t) => t,
            None => return None,
        };
        let icon = if snap.media_playing { "\u{25b6}" } else { "\u{23f8}" };
        let mut out: Vec<char> = Vec::new();
        push_str(&mut out, icon);
        push_str(&mut out, " ");
        let mut text: Vec<char> = Vec::new();
        let with_artist = match &snap.media_artist {
            Some(a) => !a.as_str().is_empty(),
            None => false,
        };
        if with_artist {
            match &snap.media_artist {
                Some(a) => push_str(&mut text, a.as_str()),
                None => {},
            }
            push_str(&mut text, " - ");
            push_str(&mut text, title.as_str());
            if text.len() > MEDIA_MAX_CHARS {
                let cut = slice(&text, 0, MEDIA_CUT_CHARS);
                push_chars(&mut out, &cut);
                push_str(&mut out, "\u{2026}");
            } else {
                push_chars(&mut out, &text);
            }
        } else {
            push_str(&mut text, title.as_str());
            if text.len() > MEDIA_CUT_CHARS {
                let cut = slice(&text, 0, MEDIA_CUT_CHARS);
                push_chars(&mut out, &cut);
                push_str(&mut out, "\u{2026}");
            } else {
                push_chars(&mut out, &text);
            }
        }
        assert(out@ =~= media_text(*snap)->0);
        Some(string_from(&out))
    }
}

/// One workspace button: the workspace it switches to, its text, and
/// whether it is the active one.
#[derive(Debug)]
pub struct WorkspaceButton {
    pub id: u32,
    pub label: String,
    pub active: bool,
}

/// Workspace `a` comes before workspace `b`: smaller id, or the same id
/// and listed earlier.
pub open spec fn comes_before(ws: Seq<WorkspaceInfo>, a: int, b: int) -> bool {
    ws[a].id < ws[b].id || (ws[a].id == ws[b].id && a < b)
}

/// `order` lists every workspace once, by id, keeping the list's order
/// among equal ids.
pub open spec fn sorted_order(ws: Seq<WorkspaceInfo>, order: Seq<usize>) -> bool {
    &&& order.len() == ws.len()
    &&& forall|k: int| 0 <= k < order.len() ==> #[trigger] order[k] < ws.len()
    &&& forall|k1: int, k2: int|
        0 <= k1 < k2 < order.len() ==> comes_before(ws, order[k1] as int, order[k2] as int)
}

/// The button that workspace `w` gets.
pub open spec fn button_of(b: WorkspaceButton, w: WorkspaceInfo, active_id: u32, dots: bool) -> bool {
    &&& b.id == w.id
    &&& b.active == (w.id == active_id)
    &&& b.label@ == if dots {
        if w.id == active_id {
            "\u{25cf}"@
        } else {
            "\u{25cb}"@
        }
    } else {
        w.name@
    }
}

fn sort_order(ws: &Vec<WorkspaceInfo>) -> (r: Vec<usize>)
    ensures
        sorted_order(ws@, r@),
{
    let mut order: Vec<usize> = Vec::new();
    let mut i: usize = 0;
    while i < ws.len()
        invariant
            i <= ws@.len(),
            order@.len() == i,
            forall|k: int| 0 <= k < order@.len() ==> #[trigger] order@[k] < i,
            forall|k1: int, k2: int|
                0 <= k1 < k2 < order@.len() ==> comes_before(ws@, order@[k1] as int, order@[k2] as int),
        decreases ws@.len() - i,
    {
        let id = ws[i].id;
        let mut p: usize = 0;
        while p < order.len() && ws[order[p]].id <= id
            invariant
                p <= order@.len(),
                i < ws@.len(),
                id == ws@[i as int].id,
                forall|k: int| 0 <= k < order@.len() ==> #[trigger] order@[k] < i,
                forall|k: int| 0 <= k < p ==> ws@[#[trigger] order@[k] as int].id <= id,
            decreases order@.len() - p,
        {
            p += 1;
        }
        let ghost old_order = order@;
        order.insert(p, i);
        proof {
            assert forall|k1: int, k2: int| 0 <= k1 < k2 < order@.len() implies comes_before(
                ws@,
                order@[k1] as int,
                order@[k2] as int,
            ) by {
                if k2 < p {
                    assert(order@[k1] == old_order[k1] && order@[k2] == old_order[k2]);
                } else if k2 == p {
                    assert(order@[k1] == old_order[k1]);
                    assert(ws@[old_order[k1] as int].id <= id);
                } else if k1 == p {
                    assert(order@[k2] == old_order[k2 - 1]);
                    assert(ws@[old_order[p as int] as int].id > id);
                    if k2 - 1 > p {
                        assert(comes_before(ws@, old_order[p as int] as int, old_order[k2 - 1] as int));
                    }
                } else if k1 < p {
                    assert(order@[k1] == old_order[k1] && order@[k2] == old_order[k2 - 1]);
                } else {
                    assert(order@[k1] == old_order[k1 - 1] && order@[k2] == old_order[k2 - 1]);
                }
            }
            assert forall|k: int| 0 <= k < order@.len() implies #[trigger] order@[k] < i + 1 by {
                if k < p {
                    assert(order@[k] == old_order[k]);
                } else if k > p {
                    assert(order@[k] == old_order[k - 1]);
                }
            }
        }
        i += 1;
    }
    order
}

impl WorkspaceWidget {
    /// One button per workspace, ordered by id (ties keep the list's order).
    pub fn buttons(&self, state: &AppState, theme: &Theme) -> (r: Vec<WorkspaceButton>)
        ensures
            r@.len() == state.workspaces@.len(),
            exists|order: Seq<usize>|
                sorted_order(state.workspaces@, order) && forall|k: int|
                    0 <= k < r@.len() ==> button_of(
                        #[trigger] r@[k],
                        state.workspaces@[order[k] as int],
                        state.active_workspace,
                        theme.workspace_dots,
                    ),
    {
        let ws = &state.workspaces;
        let order = sort_order(ws);
        let mut out: Vec<WorkspaceButton> = Vec::new();
        let mut k: usize = 0;
        while k < order.len()
            invariant
                sorted_order(ws@, order@),
                k <= order@.len(),
                out@.len() == k,
                forall|j: int|
                    0 <= j < k ==> button_of(
                        #[trigger] out@[j],
                        ws@[order@[j] as int],
                        state.active_workspace,
                        theme.workspace_dots,
                    ),
            decreases order@.len() - k,
        {
            let idx = order[k];
            assert(idx < ws@.len());
            let w = &ws[idx];
            let active = w.id == state.active_workspace;
            let label = if theme.workspace_dots {
                crate::config::own(if active { "\u{25cf}" } else { "\u{25cb}" })
            } else {
                w.name.clone()
            };
            out.push(WorkspaceButton { id: w.id, label, active });
            k += 1;
        }
        out
    }

    /// The text shown before any workspace is known.
    pub fn fallback_label(&self, theme: &Theme) -> (r: &'static str)
        ensures
            r@ == (if theme.workspace_dots {
                "\u{25cf}"@
            } else {
                "1"@
            }),
    {
        if theme.workspace_dots {
            "\u{25cf}"
        } else {
            "1"
        }
    }

    /// The text when only the active workspace is shown: a dot, or its
    /// name (its id when it is not listed).
    pub fn active_label(&self, state: &AppState, theme: &Theme) -> (r: String)
        ensures
            theme.workspace_dots ==> r@ == "\u{25cf}"@,
            !theme.workspace_dots ==> r@ == match first_with_id(state.workspaces@, state.active_workspace) {
                Some(k) => state.workspaces@[k].name@,
                None => dec(state.active_workspace as nat),
            },
    {
        if theme.workspace_dots {
            return crate::config::own("\u{25cf}");
        }
        let ws = &state.workspaces;
        let mut i: usize = 0;
        while i < ws.len()
            invariant
                i <= ws@.len(),
                !theme.workspace_dots,
                *ws == state.workspaces,
                forall|j: int| 0 <= j < i ==> (#[trigger] ws@[j]).id != state.active_workspace,
            decreases ws@.len() - i,
        {
            if ws[i].id == state.active_workspace {
                proof {
                    lemma_first_with_id(ws@, state.active_workspace, i as int);
                }
                return ws[i].name.clone();
            }
            i += 1;
        }
        proof {
            assert(!exists|k: int| first_at_id(ws@, state.active_workspace, k));
        }
        let mut out: Vec<char> = Vec::new();
        push_dec(&mut out, state.active_workspace as u64);
        string_from(&out)
    }
}

pub open spec fn first_at_id(ws: Seq<WorkspaceInfo>, id: u32, k: int) -> bool {
    0 <= k < ws.len() && ws[k].id == id && forall|j: int| 0 <= j < k ==> (#[trigger] ws[j]).id != id
}

/// Position of the first workspace with this id.
pub open spec fn first_with_id(ws: Seq<WorkspaceInfo>, id: u32) -> Option<int> {
    if exists|k: int| first_at_id(ws, id, k) {
        Some(choose|k: int| first_at_id(ws, id, k))
    } else {
        None
    }
}

proof fn lemma_first_with_id(ws: Seq<WorkspaceInfo>, id: u32, k: int)
    requires
        first_at_id(ws, id, k),
    ensures
        first_with_id(ws, id) == Some(k),
{
    let c = choose|c: int| first_at_id(ws, id, c);
    assert(first_at_id(ws, id, c));
    if c < k {
        assert(ws[c].id != id);
    }
    if k < c {
        assert(ws[k].id != id);
    }
}

/// The widget kinds that a layout can name.
#[derive(Debug, Clone, Copy, PartialEq, Eq, Structural)]
pub enum WidgetKind {
    Workspaces,
    Title,
    Clock,
    Cpu,
    Memory,
    Network,
    Uptime,
    Load,
    Notify,
    Battery,
    Disk,
    Temperature,
    Volume,
    Brightness,
    Swap,
    Keyboard,
    Media,
    Custom,
    Separator,
}

/// The kind that a layout entry names, if it names one.
pub open spec fn kind_named(name: Seq<char>) -> Option<WidgetKind> {
    if name == "workspaces"@ {
        Some(WidgetKind::Workspaces)
    } else if name == "title"@ {
        Some(WidgetKind::Title)
    } else if name == "clock"@ {
        Some(WidgetKind::Clock)
    } else if name == "cpu"@ {
        Some(WidgetKind::Cpu)
    } else if name == "memory"@ {
        Some(WidgetKind::Memory)
    } else if name == "network"@ {
        Some(WidgetKind::Network)
    } else if name == "uptime"@ {
        Some(WidgetKind::Uptime)
    } else if name == "load"@ {
        Some(WidgetKind::Load)
    } else if name == "notify"@ {
        Some(WidgetKind::Notify)
    } else if name == "battery"@ {
        Some(WidgetKind::Battery)
    } else if name == "disk"@ {
        Some(WidgetKind::Disk)
    } else if name == "temperature"@ {
        Some(WidgetKind::Temperature)
    } else if name == "volume"@ {
        Some(WidgetKind::Volume)
    } else if name == "brightness"@ {
        Some(WidgetKind::Brightness)
    } else if name == "swap"@ {
        Some(WidgetKind::Swap)
    } else if name == "keyboard"@ {
        Some(WidgetKind::Keyboard)
    } else if name == "media"@ {
        Some(WidgetKind::Media)
    } else if name == "custom"@ {
        Some(WidgetKind::Custom)
    } else if name == "separator"@ {
        Some(WidgetKind::Separator)
    } else {
        None
    }
}

impl WidgetKind {
    pub fn from_name(name: &str) -> (r: Option<WidgetKind>)
        ensures
            r == kind_named(name@),
    {
        let v = chars_of(name);
        if crate::text::eq_str(&v, "workspaces") {
            Some(WidgetKind::Workspaces)
        } else if crate::text::eq_str(&v, "title") {
            Some(WidgetKind::Title)
        } else if crate::text::eq_str(&v, "clock") {
            Some(WidgetKind::Clock)
        } else if crate::text::eq_str(&v, "cpu") {
            Some(WidgetKind::Cpu)
        } else if crate::text::eq_str(&v, "memory") {
            Some(WidgetKind::Memory)
        } else if crate::text::eq_str(&v, "network") {
            Some(WidgetKind::Network)
        } else if crate::text::eq_str(&v, "uptime") {
            Some(WidgetKind::Uptime)
        } else if crate::text::eq_str(&v, "load") {
            Some(WidgetKind::Load)
        } else if crate::text::eq_str(&v, "notify") {
            Some(WidgetKind::Notify)
        } else if crate::text::eq_str(&v, "battery") {
            Some(WidgetKind::Battery)
        } else if crate::text::eq_str(&v, "disk") {
            Some(WidgetKind::Disk)
        } else if crate::text::eq_str(&v, "temperature") {
            Some(WidgetKind::Temperature)
        } else if crate::text::eq_str(&v, "volume") {
            Some(WidgetKind::Volume)
        } else if crate::text::eq_str(&v, "brightness") {
            Some(WidgetKind::Brightness)
        } else if crate::text::eq_str(&v, "swap") {
            Some(WidgetKind::Swap)
        } else if crate::text::eq_str(&v, "keyboard") {
            Some(WidgetKind::Keyboard)
        } else if crate::text::eq_str(&v, "media") {
            Some(WidgetKind::Media)
        } else if crate::text::eq_str(&v, "custom") {
            Some(WidgetKind::Custom)
        } else if crate::text::eq_str(&v, "separator") {
            Some(WidgetKind::Separator)
        } else {
            None
        }
    }
}

} // verus!
