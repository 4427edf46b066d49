//! Configuration values as the bar uses them, and the structural subset whose
//! change needs the surface to be recreated.
use vstd::prelude::*;
use crate::text::{chars_of, string_from};

verus! {

/// An owned copy of `s`.
pub fn own(s: &str) -> (r: String)
    ensures
        r@ == s@,
{
    string_from(&chars_of(s))
}

/// Bar position on screen.
#[derive(Debug, Clone, Copy, PartialEq, Eq, Structural)]
pub enum Position {
    Top,
    Bottom,
}

/// Per-monitor overrides; unset fields fall back to `GlobalConfig`.
#[derive(Debug, Clone)]
pub struct MonitorConfig {
    pub height: Option<u32>,
    pub position: Option<Position>,
}

/// Global bar settings.
#[derive(Debug, Clone)]
pub struct GlobalConfig {
    /// Bar height in logical pixels.
    pub height: u32,
    /// Whether the bar sits at the top or the bottom.
    pub position: Position,
    /// Reserve an exclusive zone so windows don't overlap the bar.
    pub exclusive_zone: bool,
    /// Background opacity in hundredths (0 – 100).
    pub opacity: u32,
    /// Horizontal gap between bar and screen edges in logical pixels.
    pub margin: u32,
    /// Vertical gap between bar and screen edge in logical pixels.
    pub margin_top: u32,
    /// Shell command whose output the `custom` widget shows; empty disables it.
    pub custom_command: String,
}

/// Config block for a single widget instance.
#[derive(Debug, Clone)]
pub struct WidgetConfig {
    /// Widget type identifier, e.g. `"clock"`, `"workspaces"`, `"cpu"`.
    pub kind: String,
    /// Optional display label override.
    pub label: Option<String>,
}

impl WidgetConfig {
    pub fn new(kind: &str) -> (r: WidgetConfig)
        ensures
            r.kind@ == kind@,
            r.label is None,
    {
        WidgetConfig { kind: own(kind), label: None }
    }
}

/// Theme / styling configuration.  Sizes given in fractions of a pixel or
/// point are held in hundredths.
#[derive(Debug, Clone)]
pub struct ThemeConfig {
    /// Bar background color (hex, e.g. `"#1e1e2e"`).
    pub background: String,
    /// Primary text/foreground color.
    pub foreground: String,
    /// Accent / highlight color.
    pub accent: String,
    /// Font family name.
    pub font: String,
    /// Font size, in hundredths of a point.
    pub font_size: u32,
    /// Corner radius for widget containers, in hundredths of a pixel.
    pub border_radius: u32,
    pub padding: u16,
    pub gap: u16,
    /// Widget container background color (hex).  Empty = transparent.
    pub widget_bg: String,
    /// Bar border color (hex).  Empty = no border.
    pub border_color: String,
    pub border_width: u32,
    /// `strftime`-style time format.
    pub clock_format: String,
    /// `strftime`-style date format.
    pub date_format: String,
    /// `"nerd"` uses Nerd Font glyphs; `"ascii"` plain text labels.
    pub icon_style: String,
    pub widget_padding_x: u16,
    pub widget_padding_y: u16,
    /// `"numbers"` or `"dots"`.
    pub workspace_style: String,
    /// Show all open workspaces (`true`) or the active one only.
    pub workspace_show_all: bool,
    /// Comma-separated list of `"speed"`, `"name"`, `"signal"`.
    pub network_show: String,
}

/// Root configuration structure.
#[derive(Debug, Clone)]
pub struct BarConfig {
    pub global: GlobalConfig,
    /// Per-monitor overrides, keyed by output name.
    pub monitors: Vec<(String, MonitorConfig)>,
    pub left: Vec<WidgetConfig>,
    pub center: Vec<WidgetConfig>,
    pub right: Vec<WidgetConfig>,
    pub theme: ThemeConfig,
}

impl Default for GlobalConfig {
    fn default() -> (r: GlobalConfig)
        ensures
            r.height == 40,
            r.position == Position::Top,
            r.exclusive_zone,
            r.opacity == 95,
            r.margin == 0 && r.margin_top == 0,
            r.custom_command@.len() == 0,
    {
        GlobalConfig {
            height: 40,
            position: Position::Top,
            exclusive_zone: true,
            opacity: 95,
            margin: 0,
            margin_top: 0,
            custom_command: String::new(),
        }
    }
}

impl Default for ThemeConfig {
    fn default() -> (r: ThemeConfig)
        ensures
            r.background@ == "#1e1e2e"@,
            r.foreground@ == "#cdd6f4"@,
            r.accent@ == "#cba6f7"@,
            r.widget_bg@.len() == 0,
            r.border_color@.len() == 0,
            r.icon_style@ == "nerd"@,
            r.workspace_style@ == "numbers"@,
            r.workspace_show_all,
            r.network_show@ == "speed"@,
    {
        ThemeConfig {
            background: own("#1e1e2e"),
            foreground: own("#cdd6f4"),
            accent: own("#cba6f7"),
            font: own("JetBrains Mono"),
            font_size: 1300,
            border_radius: 600,
            padding: 8,
            gap: 4,
            widget_bg: String::new(),
            border_color: String::new(),
            border_width: 0,
            clock_format: own("%H:%M"),
            date_format: own("%a %d %b"),
            icon_style: own("nerd"),
            widget_padding_x: 8,
            widget_padding_y: 4,
            workspace_style: own("numbers"),
            workspace_show_all: true,
            network_show: own("speed"),
        }
    }
}

impl Default for BarConfig {
    fn default() -> (r: BarConfig)
        ensures
            r.global.height == 40,
            r.monitors@.len() == 0,
            r.left@.len() == 1 && r.left@[0].kind@ == "workspaces"@,
            r.center@.len() == 1 && r.center@[0].kind@ == "clock"@,
            r.right@.len() == 2 && r.right@[0].kind@ == "cpu"@ && r.right@[1].kind@ == "memory"@,
    {
        BarConfig {
            global: GlobalConfig::default(),
            monitors: Vec::new(),
            left: vec![WidgetConfig::new("workspaces")],
            center: vec![WidgetConfig::new("clock")],
            right: vec![WidgetConfig::new("cpu"), WidgetConfig::new("memory")],
            theme: ThemeConfig::default(),
        }
    }
}

/// The settings that fix the surface's geometry: a change to any of them
/// needs the surface to be recreated.
#[derive(Debug, Clone, Copy, PartialEq, Eq, Structural)]
pub struct Geometry {
    pub height: u32,
    pub position: Position,
    pub margin: u32,
    pub margin_top: u32,
}

/// The structural part of a global configuration.
pub open spec fn geometry_of(g: GlobalConfig) -> Geometry {
    Geometry {
        height: g.height,
        position: g.position,
        margin: g.margin,
        margin_top: g.margin_top,
    }
}

/// Outcome of saving the configuration file.
#[derive(Debug, Clone, Copy, PartialEq, Eq, Structural)]
pub enum SaveStatus {
    /// Saved; every change takes effect live.
    Saved,
    /// Saved with a structural change: the bar must be restarted.
    Restarting,
    /// The file could not be written.
    Failed,
}

impl Geometry {
    pub fn capture(g: &GlobalConfig) -> (r: Geometry)
        ensures
            r == geometry_of(*g),
    {
        Geometry {
            height: g.height,
            position: g.position,
            margin: g.margin,
            margin_top: g.margin_top,
        }
    }

    /// Whether `g` differs from this snapshot in a structural field.
    pub fn differs(&self, g: &GlobalConfig) -> (r: bool)
        ensures
            r == (*self != geometry_of(*g)),
    {
        self.height != g.height || self.position != g.position || self.margin != g.margin
            || self.margin_top != g.margin_top
    }

    /// Records the outcome of saving `saved`: the snapshot moves to the saved
    /// values only after a successful save that changed a structural field.
    pub fn after_save(&mut self, saved: &GlobalConfig, save_ok: bool) -> (r: SaveStatus)
        ensures
            !save_ok ==> r == SaveStatus::Failed && *final(self) == *old(self),
            save_ok && *old(self) != geometry_of(*saved) ==> r == SaveStatus::Restarting
                && *final(self) == geometry_of(*saved),
            save_ok && *old(self) == geometry_of(*saved) ==> r == SaveStatus::Saved
                && *final(self) == *old(self),
    {
        if !save_ok {
            SaveStatus::Failed
        } else if self.differs(saved) {
            *self = Geometry::capture(saved);
            SaveStatus::Restarting
        } else {
            SaveStatus::Saved
        }
    }
}

/// Which widget kinds appear in each bar section.
#[derive(Debug, Clone)]
pub struct BarLayout {
    pub left: Vec<String>,
    pub center: Vec<String>,
    pub right: Vec<String>,
}

/// The kinds of a list of widget blocks, in order.
pub open spec fn kinds_of(ws: Seq<WidgetConfig>) -> Seq<Seq<char>> {
    ws.map_values(|w: WidgetConfig| w.kind@)
}

fn kinds(ws: &Vec<WidgetConfig>) -> (r: Vec<String>)
    ensures
        r@.map_values(|s: String| s@) == kinds_of(ws@),
{
    let mut r: Vec<String> = Vec::new();
    let mut i: usize = 0;
    while i < ws.len()
        invariant
            i <= ws@.len(),
            r@.map_values(|s: String| s@) == kinds_of(ws@.subrange(0, i as int)),
        decreases ws@.len() - i,
    {
        r.push(own(ws[i].kind.as_str()));
        assert(kinds_of(ws@.subrange(0, i + 1)) =~= kinds_of(ws@.subrange(0, i as int)).push(
            ws@[i as int].kind@,
        ));
        assert(r@.map_values(|s: String| s@) =~= kinds_of(ws@.subrange(0, i + 1)));
        i += 1;
    }
    assert(ws@.subrange(0, ws@.len() as int) =~= ws@);
    r
}

impl BarLayout {
    /// The widget kinds of each section of `config`, in order.
    pub fn from_config(config: &BarConfig) -> (r: BarLayout)
        ensures
            r.left@.map_values(|s: String| s@) == kinds_of(config.left@),
            r.center@.map_values(|s: String| s@) == kinds_of(config.center@),
            r.right@.map_values(|s: String| s@) == kinds_of(config.right@),
    {
        BarLayout {
            left: kinds(&config.left),
            center: kinds(&config.center),
            right: kinds(&config.right),
        }
    }
}

/// The configuration file that a watcher observes.
#[derive(Debug, Clone)]
pub struct ConfigWatcher {
    path: String,
}

impl ConfigWatcher {
    /// A watcher handle for `path`; the watching itself runs outside.
    pub fn new(path: &str) -> (r: ConfigWatcher)
        ensures
            r.spec_path() == path@,
    {
        ConfigWatcher { path: own(path) }
    }

    pub closed spec fn spec_path(&self) -> Seq<char> {
        self.path@
    }

    pub fn path(&self) -> (r: &str)
        ensures
            r@ == self.spec_path(),
    {
        self.path.as_str()
    }
}

/// Kinds of file-system events that a watcher reports.
#[derive(Debug, Clone, Copy, PartialEq, Eq, Structural)]
pub enum FsEventKind {
    Access,
    Create,
    Modify,
    Remove,
    Other,
}

/// Whether a file-system event on the watched file signals a changed config:
/// a write or a creation does, anything else does not.
pub fn signals_change(kind: FsEventKind) -> (r: bool)
    ensures
        r == (kind == FsEventKind::Create || kind == FsEventKind::Modify),
{
    match kind {
        FsEventKind::Create | FsEventKind::Modify => true,
        _ => false,
    }
}

/// Placement of the bar's surface on its output.
#[derive(Debug, Clone, Copy, PartialEq, Eq, Structural)]
pub struct SurfaceSettings {
    /// Height of the surface (it spans the output's width).
    pub height: u32,
    /// The edge it is anchored to, besides the left and right ones.
    pub edge: Position,
    /// Space reserved so that windows do not overlap it (0 = none).
    pub exclusive_zone: i32,
    pub margin_top: i32,
    pub margin_right: i32,
    pub margin_bottom: i32,
    pub margin_left: i32,
}

/// The surface placement that a global configuration asks for: the gap to
/// the anchored edge is `margin_top`, the side gaps `margin`, and the
/// exclusive zone covers the bar and that gap.  Values beyond `i32` wrap, as
/// integer casts do.
pub fn surface_settings(g: &GlobalConfig) -> (r: SurfaceSettings)
    ensures
        r.height == g.height,
        r.edge == g.position,
        r.exclusive_zone == (if g.exclusive_zone {
            ((g.height + g.margin_top) as u32) as i32
        } else {
            0i32
        }),
        r.margin_top == (if g.position == Position::Top {
            g.margin_top as i32
        } else {
            0i32
        }),
        r.margin_bottom == (if g.position == Position::Bottom {
            g.margin_top as i32
        } else {
            0i32
        }),
        r.margin_left == g.margin as i32,
        r.margin_right == g.margin as i32,
{
    let edge_gap = #[verifier::truncate] (g.margin_top as i32);
    let side_gap = #[verifier::truncate] (g.margin as i32);
    let (top, bottom) = match g.position {
        Position::Top => (edge_gap, 0),
        Position::Bottom => (0, edge_gap),
    };
    let exclusive_zone = if g.exclusive_zone {
        let total = g.height as u64 + g.margin_top as u64;
        let wrapped = #[verifier::truncate] (total as u32);
        #[verifier::truncate] (wrapped as i32)
    } else {
        0
    };
    SurfaceSettings {
        height: g.height,
        edge: g.position,
        exclusive_zone,
        margin_top: top,
        margin_right: side_gap,
        margin_bottom: bottom,
        margin_left: side_gap,
    }
}

} // verus!
