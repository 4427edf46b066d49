//! The application's data model: the state document, the resource snapshot,
//! notification entries, the message taxonomy and the error type.
use vstd::prelude::*;

verus! {

/// Most notification entries kept; inserting beyond it evicts the oldest.
pub const NOTIFY_HISTORY_CAP: usize = 50;

/// Information about a single workspace.
#[derive(Debug, Clone)]
pub struct WorkspaceInfo {
    pub id: u32,
    pub name: String,
    pub monitor: String,
    /// Number of windows currently in this workspace.
    pub windows: u32,
}

/// A point-in-time snapshot of system resource usage.
///
/// Fractional readings are held in fixed point: a value `v` stands for
/// `v / 100` of the unit named beside it.
#[derive(Debug, Clone)]
pub struct SystemSnapshot {
    /// Per-core CPU usage, in hundredths of a percent.
    pub cpu_per_core: Vec<u32>,
    /// Mean of `cpu_per_core`, in hundredths of a percent.
    pub cpu_average: u32,
    /// RAM used in bytes.
    pub ram_used: u64,
    /// Total RAM in bytes.
    pub ram_total: u64,
    pub swap_used: u64,
    pub swap_total: u64,
    /// Root filesystem: used bytes.
    pub disk_used: u64,
    /// Root filesystem: total bytes.
    pub disk_total: u64,
    /// Network receive rate in bytes/second.
    pub net_rx: u64,
    /// Network transmit rate in bytes/second.
    pub net_tx: u64,
    /// Interface with the most traffic (empty when none).
    pub net_interface: String,
    /// Wireless signal level of that interface, in dBm.
    pub net_signal: Option<i32>,
    /// Battery charge level (0–100), `None` if no battery present.
    pub battery_percent: Option<u8>,
    /// `true` = charging / full, `false` = discharging, `None` = unknown.
    pub battery_charging: Option<bool>,
    /// Minutes until empty (or until full when charging).
    pub battery_time_min: Option<u32>,
    /// CPU package temperature, in hundredths of a degree Celsius.
    pub cpu_temp: Option<i32>,
    /// Output volume, in hundredths of a percent of full scale.
    pub volume: Option<u32>,
    pub volume_muted: bool,
    /// Backlight level in percent.
    pub brightness: Option<u8>,
    pub uptime_secs: u64,
    /// Load averages over 1, 5 and 15 minutes, in hundredths.
    pub load_1: u32,
    pub load_5: u32,
    pub load_15: u32,
    pub media_title: Option<String>,
    pub media_artist: Option<String>,
    pub media_playing: bool,
    /// Trimmed output of the configured custom command.
    pub custom_output: String,
}

/// `used` as a whole percentage of `total`, rounded down; 0 when `total` is 0.
pub open spec fn percent_of(used: u64, total: u64) -> nat {
    if total == 0 {
        0
    } else {
        (used as nat * 100) / total as nat
    }
}

/// `percent_of` held to the range of a `u8` (255 and above read as 255).
pub open spec fn percent_u8(used: u64, total: u64) -> u8 {
    if percent_of(used, total) > 255 {
        255
    } else {
        percent_of(used, total) as u8
    }
}

fn percent_exec(used: u64, total: u64) -> (r: u8)
    ensures
        r == percent_u8(used, total),
{
    if total == 0 {
        0
    } else {
        let p = (used as u128 * 100) / total as u128;
        if p > 255 {
            255
        } else {
            p as u8
        }
    }
}

impl SystemSnapshot {
    /// The snapshot of a host on which nothing has been read yet.
    pub fn empty() -> (r: SystemSnapshot)
        ensures
            r.cpu_per_core@.len() == 0 && r.cpu_average == 0,
            r.ram_total == 0 && r.ram_used == 0,
            r.swap_total == 0 && r.swap_used == 0,
            r.disk_total == 0 && r.disk_used == 0,
            r.net_rx == 0 && r.net_tx == 0,
            r.net_interface@.len() == 0 && r.net_signal is None,
            r.battery_percent is None && r.battery_charging is None && r.battery_time_min is None,
            r.cpu_temp is None && r.volume is None && !r.volume_muted && r.brightness is None,
            r.uptime_secs == 0 && r.load_1 == 0 && r.load_5 == 0 && r.load_15 == 0,
            r.media_title is None && r.media_artist is None && !r.media_playing,
            r.custom_output@.len() == 0,
    {
        SystemSnapshot {
            cpu_per_core: Vec::new(),
            cpu_average: 0,
            ram_used: 0,
            ram_total: 0,
            swap_used: 0,
            swap_total: 0,
            disk_used: 0,
            disk_total: 0,
            net_rx: 0,
            net_tx: 0,
            net_interface: String::new(),
            net_signal: None,
            battery_percent: None,
            battery_charging: None,
            battery_time_min: None,
            cpu_temp: None,
            volume: None,
            volume_muted: false,
            brightness: None,
            uptime_secs: 0,
            load_1: 0,
            load_5: 0,
            load_15: 0,
            media_title: None,
            media_artist: None,
            media_playing: false,
            custom_output: String::new(),
        }
    }

    /// RAM usage as a whole percentage (held to 255); 0 when the total is unknown (zero).
    pub fn ram_percent(&self) -> (r: u8)
        ensures
            r == percent_u8(self.ram_used, self.ram_total),
            self.ram_total == 0 ==> r == 0,
            self.ram_used <= self.ram_total ==> r <= 100,
    {
        proof {
            if self.ram_used <= self.ram_total && self.ram_total > 0 {
                assert((self.ram_used as nat * 100) / self.ram_total as nat <= 100) by (nonlinear_arith)
                    requires
                        self.ram_used as nat <= self.ram_total as nat,
                        self.ram_total > 0,
                ;
            }
        }
        percent_exec(self.ram_used, self.ram_total)
    }

    /// Disk usage as a whole percentage (held to 255); 0 when the total is unknown (zero).
    pub fn disk_percent(&self) -> (r: u8)
        ensures
            r == percent_u8(self.disk_used, self.disk_total),
            self.disk_total == 0 ==> r == 0,
            self.disk_used <= self.disk_total ==> r <= 100,
    {
        proof {
            if self.disk_used <= self.disk_total && self.disk_total > 0 {
                assert((self.disk_used as nat * 100) / self.disk_total as nat <= 100) by (nonlinear_arith)
                    requires
                        self.disk_used as nat <= self.disk_total as nat,
                        self.disk_total > 0,
                ;
            }
        }
        percent_exec(self.disk_used, self.disk_total)
    }
}

/// A received desktop notification.  Its identity is `id` (never 0).
#[derive(Debug, Clone)]
pub struct NotifEntry {
    pub id: u32,
    pub app_name: String,
    pub summary: String,
    pub body: String,
}

/// Central application state, owned and changed by the reducer alone.
#[derive(Debug, Clone)]
pub struct AppState {
    /// All known workspaces.
    pub workspaces: Vec<WorkspaceInfo>,
    /// ID of the currently focused workspace.
    pub active_workspace: u32,
    /// Title of the currently focused window, if any.
    pub active_window: Option<String>,
    /// Whether any window is in fullscreen mode.
    pub is_fullscreen: bool,
    /// Active keyboard layout name (empty = not yet known).
    pub keyboard_layout: String,
    /// Latest system resource snapshot.
    pub system: SystemSnapshot,
    /// Received notifications, oldest first.
    pub notifications: Vec<NotifEntry>,
    /// Whether the notification panel is shown below the bar.
    pub notify_panel_open: bool,
    /// Current wall-clock time, in seconds since the Unix epoch.
    pub time: i64,
}

/// No two entries of `s` share an id.
pub open spec fn ids_distinct(s: Seq<NotifEntry>) -> bool {
    forall|i: int, j: int| 0 <= i < j < s.len() ==> s[i].id != s[j].id
}

impl AppState {
    /// The notification history is bounded and keyed by id.
    pub open spec fn wf(&self) -> bool {
        &&& self.notifications@.len() <= NOTIFY_HISTORY_CAP
        &&& ids_distinct(self.notifications@)
    }

    /// The state before any event has arrived, at time `now`.
    pub fn initial(now: i64) -> (r: AppState)
        ensures
            r.wf(),
            r.workspaces@.len() == 0,
            r.active_workspace == 1,
            r.active_window is None,
            !r.is_fullscreen,
            r.keyboard_layout@.len() == 0,
            r.notifications@.len() == 0,
            !r.notify_panel_open,
            r.time == now,
    {
        AppState {
            workspaces: Vec::new(),
            active_workspace: 1,
            active_window: None,
            is_fullscreen: false,
            keyboard_layout: String::new(),
            system: SystemSnapshot::empty(),
            notifications: Vec::new(),
            notify_panel_open: false,
            time: now,
        }
    }
}

/// All messages that flow to the reducer.
#[derive(Debug, Clone)]
pub enum Message {
    /// Active workspace changed (carries the new workspace ID).
    WorkspaceChanged(u32),
    /// Full workspace list refreshed.
    WorkspaceListUpdated(Vec<WorkspaceInfo>),
    /// Focused window title changed (`None` = no window focused).
    ActiveWindowChanged(Option<String>),
    /// Fullscreen state toggled.
    FullscreenStateChanged(bool),
    /// Fresh resource snapshot from the sampler.
    SystemSnapshot(SystemSnapshot),
    /// Config file changed on disk.
    ConfigReloaded,
    /// Active keyboard layout changed.
    KeyboardLayoutChanged(String),
    /// A notification arrived (or replaced the one with the same id).
    NotificationReceived { id: u32, app_name: String, summary: String, body: String },
    /// The sender closed a notification.
    NotificationClosed(u32),
    /// Open or close the notification panel.
    NotifyPanelToggle,
    /// The user dismissed one notification.
    NotifyDismiss(u32),
    /// The user cleared every notification.
    NotifyClearAll,
    /// User clicked a workspace button.
    WorkspaceSwitchRequested(u32),
    /// Volume step in percent (positive = louder).
    VolumeAdjust(i32),
    VolumeMuteToggle,
    /// Brightness step in percent (positive = brighter).
    BrightnessAdjust(i32),
    MediaPlayPause,
    MediaNext,
    MediaPrev,
    KeyboardLayoutNext,
    KeyboardLayoutPrev,
    /// Periodic timer tick.
    Tick,
    /// Graceful shutdown requested.
    Shutdown,
}

/// Errors of the bar's subsystems, each with a description.
#[derive(Debug)]
pub enum BarError {
    Config(String),
    Ipc(String),
    System(String),
    Wayland(String),
    Widget(String),
    /// An I/O failure, described.
    Io(String),
}

impl BarError {
    /// The message shown for this error: a subsystem prefix, then the description.
    pub fn message(&self) -> (r: String)
        ensures
            r@ == bar_error_text(*self),
    {
        let (prefix, detail) = match self {
            BarError::Config(s) => ("config error: ", s),
            BarError::Ipc(s) => ("IPC error: ", s),
            BarError::System(s) => ("system error: ", s),
            BarError::Wayland(s) => ("wayland error: ", s),
            BarError::Widget(s) => ("widget error: ", s),
            BarError::Io(s) => ("I/O error: ", s),
        };
        let mut out: Vec<char> = Vec::new();
        crate::text::push_str(&mut out, prefix);
        crate::text::push_str(&mut out, detail.as_str());
        crate::text::string_from(&out)
    }
}

pub open spec fn bar_error_text(e: BarError) -> Seq<char> {
    match e {
        BarError::Config(s) => "config error: "@ + s@,
        BarError::Ipc(s) => "IPC error: "@ + s@,
        BarError::System(s) => "system error: "@ + s@,
        BarError::Wayland(s) => "wayland error: "@ + s@,
        BarError::Widget(s) => "widget error: "@ + s@,
        BarError::Io(s) => "I/O error: "@ + s@,
    }
}

} // verus!
