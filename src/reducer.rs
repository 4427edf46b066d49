//! The single consumer of all messages: applies each one to the state and
//! says which side effect, if any, the caller should perform.
use vstd::prelude::*;
use crate::config::{own, geometry_of, BarConfig, Geometry};
use crate::state::{ids_distinct, AppState, Message, NotifEntry, NOTIFY_HISTORY_CAP};
use crate::text::{dec, push_dec, push_str, string_from};
use crate::theme::{theme_of, Theme};

verus! {

/// Height of the notification panel that drops below the bar (pixels).
pub const NOTIFY_PANEL_HEIGHT: u32 = 300;

/// A side effect that the reducer asks its caller to perform.
#[derive(Debug)]
pub enum Effect {
    /// Nothing to do.
    Nothing,
    /// Resize the surface to this height.
    Resize(u32),
    /// Run this program with these arguments and discard its result.
    Spawn(Vec<String>),
    /// Read the configuration file again and hand it to [`Bar::apply_config`].
    ReloadConfig,
}

pub enum EffectView {
    Nothing,
    Resize(u32),
    Spawn(Seq<Seq<char>>),
    ReloadConfig,
}

pub open spec fn words(v: Seq<String>) -> Seq<Seq<char>> {
    v.map_values(|s: String| s@)
}

impl View for Effect {
    type V = EffectView;

    open spec fn view(&self) -> EffectView {
        match self {
            Effect::Nothing => EffectView::Nothing,
            Effect::Resize(h) => EffectView::Resize(*h),
            Effect::Spawn(v) => EffectView::Spawn(words(v@)),
            Effect::ReloadConfig => EffectView::ReloadConfig,
        }
    }
}

/// What a reload did with the new configuration.
#[derive(Debug, Clone, Copy, PartialEq, Eq, Structural)]
pub enum ConfigOutcome {
    /// Applied whole, live.
    Applied,
    /// It changes the surface geometry: everything else was applied, the
    /// geometry kept, and a restart is needed to pick it up.
    RestartRequired,
}

/// The reducer: the application state, the configuration in force, the
/// compiled theme and the geometry that the surface was launched with.
#[derive(Debug)]
pub struct Bar {
    pub state: AppState,
    pub config: BarConfig,
    pub theme: Theme,
    pub launched: Geometry,
}

/// `s` without the entries whose id is `id`.
pub open spec fn without_id(s: Seq<NotifEntry>, id: u32) -> Seq<NotifEntry> {
    s.filter(|e: NotifEntry| e.id != id)
}

/// The notification list after `e` arrives: an entry with the same id is
/// dropped, `e` goes last, and beyond the cap the oldest entry is evicted.
pub open spec fn after_receive(s: Seq<NotifEntry>, e: NotifEntry) -> Seq<NotifEntry> {
    let t = without_id(s, e.id).push(e);
    if t.len() > NOTIFY_HISTORY_CAP {
        t.drop_first()
    } else {
        t
    }
}

/// Height of the surface: the bar, plus the panel when it is open.
pub open spec fn surface_height(bar_height: u32, panel_open: bool) -> u32 {
    if !panel_open {
        bar_height
    } else if bar_height as int + NOTIFY_PANEL_HEIGHT as int > u32::MAX as int {
        u32::MAX
    } else {
        (bar_height + NOTIFY_PANEL_HEIGHT) as u32
    }
}

/// `+N%` / `-N%` step argument of the volume and brightness controls.
pub open spec fn step_arg(delta: i32) -> Seq<char> {
    if delta >= 0 {
        dec(delta as nat) + "%+"@
    } else {
        dec((-delta) as nat) + "%-"@
    }
}

/// The command that a user action runs, if the message is one.
pub open spec fn command_for(msg: Message) -> Option<Seq<Seq<char>>> {
    match msg {
        Message::WorkspaceSwitchRequested(id) => Some(
            seq!["hyprctl"@, "dispatch"@, "workspace"@, dec(id as nat)],
        ),
        Message::VolumeAdjust(d) => Some(
            seq!["wpctl"@, "set-volume"@, "-l"@, "1.5"@, "@DEFAULT_AUDIO_SINK@"@, step_arg(d)],
        ),
        Message::VolumeMuteToggle => Some(
            seq!["wpctl"@, "set-mute"@, "@DEFAULT_AUDIO_SINK@"@, "toggle"@],
        ),
        Message::BrightnessAdjust(d) => Some(seq!["brightnessctl"@, "set"@, step_arg(d)]),
        Message::MediaPlayPause => Some(seq!["playerctl"@, "play-pause"@]),
        Message::MediaNext => Some(seq!["playerctl"@, "next"@]),
        Message::MediaPrev => Some(seq!["playerctl"@, "previous"@]),
        Message::KeyboardLayoutNext => Some(seq!["hyprctl"@, "switchxkblayout"@, "all"@, "next"@]),
        Message::KeyboardLayoutPrev => Some(seq!["hyprctl"@, "switchxkblayout"@, "all"@, "prev"@]),
        _ => None,
    }
}

/// `c` agrees with `b` in everything but the notification list and the
/// panel flag.
pub open spec fn same_but_notifications(b: Bar, c: Bar) -> bool {
    &&& c.config == b.config
    &&& c.theme == b.theme
    &&& c.launched == b.launched
    &&& c.state.workspaces == b.state.workspaces
    &&& c.state.active_workspace == b.state.active_workspace
    &&& c.state.active_window == b.state.active_window
    &&& c.state.is_fullscreen == b.state.is_fullscreen
    &&& c.state.keyboard_layout == b.state.keyboard_layout
    &&& c.state.system == b.state.system
    &&& c.state.time == b.state.time
}

/// The list shrank to `list`: an open panel over an empty list closes and
/// the surface shrinks back to the bar.
pub open spec fn shrunk_to(b: Bar, list: Seq<NotifEntry>, c: Bar, e: EffectView) -> bool {
    let close = list.len() == 0 && b.state.notify_panel_open;
    &&& same_but_notifications(b, c)
    &&& c.state.notifications@ == list
    &&& c.state.notify_panel_open == (b.state.notify_panel_open && !close)
    &&& e == if close {
        EffectView::Resize(surface_height(b.config.global.height, false))
    } else {
        EffectView::Nothing
    }
}

/// One message takes the reducer from `b` to `c` and asks for effect `e`.
pub open spec fn stepped(b: Bar, msg: Message, c: Bar, e: EffectView) -> bool {
    let s = b.state;
    match msg {
        Message::WorkspaceChanged(id) => c == (Bar {
            state: AppState { active_workspace: id, ..s },
            ..b
        }) && e == EffectView::Nothing,
        Message::WorkspaceListUpdated(ws) => c == (Bar {
            state: AppState { workspaces: ws, ..s },
            ..b
        }) && e == EffectView::Nothing,
        Message::ActiveWindowChanged(t) => c == (Bar {
            state: AppState { active_window: t, ..s },
            ..b
        }) && e == EffectView::Nothing,
        Message::FullscreenStateChanged(f) => c == (Bar {
            state: AppState { is_fullscreen: f, ..s },
            ..b
        }) && e == EffectView::Nothing,
        Message::KeyboardLayoutChanged(l) => c == (Bar {
            state: AppState { keyboard_layout: l, ..s },
            ..b
        }) && e == EffectView::Nothing,
        Message::SystemSnapshot(snap) => c == (Bar {
            state: AppState { system: snap, ..s },
            ..b
        }) && e == EffectView::Nothing,
        Message::ConfigReloaded => c == b && e == EffectView::ReloadConfig,
        Message::NotificationReceived { id, app_name, summary, body } => {
            &&& same_but_notifications(b, c)
            &&& c.state.notify_panel_open == s.notify_panel_open
            &&& c.state.notifications@ == after_receive(
                s.notifications@,
                NotifEntry { id, app_name, summary, body },
            )
            &&& e == EffectView::Nothing
        },
        Message::NotificationClosed(id) => shrunk_to(b, without_id(s.notifications@, id), c, e),
        Message::NotifyDismiss(id) => shrunk_to(b, without_id(s.notifications@, id), c, e),
        Message::NotifyClearAll => shrunk_to(b, Seq::empty(), c, e),
        Message::NotifyPanelToggle => c == (Bar {
            state: AppState { notify_panel_open: !s.notify_panel_open, ..s },
            ..b
        }) && e == EffectView::Resize(surface_height(b.config.global.height, !s.notify_panel_open)),
        _ => c == b && e == match command_for(msg) {
            Some(argv) => EffectView::Spawn(argv),
            None => EffectView::Nothing,
        },
    }
}

/// The geometry in force and the reload's outcome.
pub open spec fn reloaded(b: Bar, cfg: BarConfig, c: Bar, r: ConfigOutcome) -> bool {
    let kept = BarConfig {
        global: crate::config::GlobalConfig {
            height: b.launched.height,
            position: b.launched.position,
            margin: b.launched.margin,
            margin_top: b.launched.margin_top,
            ..cfg.global
        },
        ..cfg
    };
    &&& c.state == b.state
    &&& c.launched == b.launched
    &&& c.theme == theme_of(cfg.theme)
    &&& if geometry_of(cfg.global) == b.launched {
        c.config == cfg && r == ConfigOutcome::Applied
    } else {
        c.config == kept && r == ConfigOutcome::RestartRequired
    }
}

fn argv_effect(v: Vec<String>) -> (r: Effect)
    ensures
        r@ == EffectView::Spawn(words(v@)),
{
    Effect::Spawn(v)
}

fn step_arg_exec(delta: i32) -> (r: String)
    ensures
        r@ == step_arg(delta),
{
    let mut out: Vec<char> = Vec::new();
    if delta >= 0 {
        push_dec(&mut out, delta as u64);
        push_str(&mut out, "%+");
    } else {
        let m: u64 = if delta == i32::MIN {
            2147483648u64
        } else {
            (-delta) as u64
        };
        push_dec(&mut out, m);
        push_str(&mut out, "%-");
    }
    string_from(&out)
}

fn dec_string(n: u64) -> (r: String)
    ensures
        r@ == dec(n as nat),
{
    let mut out: Vec<char> = Vec::new();
    push_dec(&mut out, n);
    assert(out@ =~= dec(n as nat));
    string_from(&out)
}

/// Keeps the entries whose id is not `id`, in order.
fn retain_other_ids(list: &mut Vec<NotifEntry>, id: u32)
    ensures
        final(list)@ == without_id(old(list)@, id),
        ids_distinct(old(list)@) ==> ids_distinct(final(list)@),
        final(list)@.len() <= old(list)@.len(),
        forall|i: int| 0 <= i < final(list)@.len() ==> (#[trigger] final(list)@[i]).id != id,
{
    let mut rest: Vec<NotifEntry> = Vec::new();
    std::mem::swap(list, &mut rest);
    let ghost orig = rest@;
    let ghost mut k: int = 0;
    while rest.len() > 0
        invariant
            0 <= k <= orig.len(),
            rest@ == orig.subrange(k, orig.len() as int),
            list@ == without_id(orig.subrange(0, k), id),
            list@.len() <= k,
            forall|i: int| 0 <= i < list@.len() ==> (#[trigger] list@[i]).id != id,
            forall|i: int|
                0 <= i < list@.len() ==> exists|j: int| 0 <= j < k && (#[trigger] list@[i]).id == orig[j].id,
            ids_distinct(orig) ==> ids_distinct(list@),
        decreases rest@.len(),
    {
        let e = rest.remove(0);
        proof {
            let pre = orig.subrange(0, k);
            let next = orig.subrange(0, k + 1);
            assert(next.drop_last() =~= pre);
            assert(next.last() == e);
            reveal(Seq::filter);
            assert(rest@ =~= orig.subrange(k + 1, orig.len() as int));
        }
        if e.id != id {
            let ghost before = list@;
            list.push(e);
            proof {
                assert forall|i: int| 0 <= i < list@.len() implies exists|j: int|
                    0 <= j < k + 1 && (#[trigger] list@[i]).id == orig[j].id by {
                    if i < before.len() {
                        let j = choose|j: int| 0 <= j < k && before[i].id == orig[j].id;
                        assert(0 <= j < k + 1 && list@[i].id == orig[j].id);
                    } else {
                        assert(list@[i].id == orig[k].id);
                    }
                }
                if ids_distinct(orig) {
                    assert forall|a: int, c: int| 0 <= a < c < list@.len() implies list@[a].id
                        != list@[c].id by {
                        if c == before.len() {
                            let j = choose|j: int| 0 <= j < k && before[a].id == orig[j].id;
                            assert(orig[j].id != orig[k].id);
                        }
                    }
                }
            }
        }
        proof {
            k = k + 1;
        }
    }
    assert(orig.subrange(0, k) =~= orig);
}

impl Bar {
    /// The history is bounded and keyed by id, and the configuration in force
    /// has the geometry that the surface was launched with.
    pub open spec fn wf(&self) -> bool {
        &&& self.state.wf()
        &&& geometry_of(self.config.global) == self.launched
    }

    /// A reducer launched with `config`, at time `now`.
    pub fn new(config: BarConfig, now: i64) -> (r: Bar)
        ensures
            r.wf(),
            r.config == config,
            r.theme == theme_of(config.theme),
            r.launched == geometry_of(config.global),
            r.state.notifications@.len() == 0,
            !r.state.notify_panel_open,
            r.state.time == now,
    {
        let theme = Theme::from_config(&config.theme);
        let launched = Geometry::capture(&config.global);
        Bar { state: AppState::initial(now), config, theme, launched }
    }

    /// The clock moved on.
    pub fn tick(&mut self, now: i64)
        ensures
            *final(self) == (Bar { state: AppState { time: now, ..old(self).state }, ..*old(self) }),
    {
        self.state.time = now;
    }

    fn surface_height_exec(&self, open: bool) -> (r: u32)
        ensures
            r == surface_height(self.config.global.height, open),
    {
        if !open {
            self.config.global.height
        } else if self.config.global.height > u32::MAX - NOTIFY_PANEL_HEIGHT {
            u32::MAX
        } else {
            self.config.global.height + NOTIFY_PANEL_HEIGHT
        }
    }

    /// After entries were removed: closes an open panel over an empty list.
    fn close_if_empty(&mut self) -> (r: Effect)
        ensures
            same_but_notifications(*old(self), *final(self)),
            final(self).state.notifications == old(self).state.notifications,
            final(self).state.notify_panel_open == (old(self).state.notify_panel_open && !(
            old(self).state.notifications@.len() == 0)),
            r@ == if old(self).state.notifications@.len() == 0 && old(self).state.notify_panel_open {
                EffectView::Resize(surface_height(old(self).config.global.height, false))
            } else {
                EffectView::Nothing
            },
    {
        if self.state.notifications.len() == 0 && self.state.notify_panel_open {
            self.state.notify_panel_open = false;
            Effect::Resize(self.surface_height_exec(false))
        } else {
            Effect::Nothing
        }
    }

    /// Applies one message and returns the side effect that it asks for.
    pub fn handle_app(&mut self, msg: Message) -> (r: Effect)
        requires
            old(self).wf(),
        ensures
            final(self).wf(),
            stepped(*old(self), msg, *final(self), r@),
    {
        match msg {
            Message::WorkspaceChanged(id) => {
                self.state.active_workspace = id;
                Effect::Nothing
            },
            Message::WorkspaceListUpdated(ws) => {
                self.state.workspaces = ws;
                Effect::Nothing
            },
            Message::ActiveWindowChanged(t) => {
                self.state.active_window = t;
                Effect::Nothing
            },
            Message::FullscreenStateChanged(f) => {
                self.state.is_fullscreen = f;
                Effect::Nothing
            },
            Message::KeyboardLayoutChanged(l) => {
                self.state.keyboard_layout = l;
                Effect::Nothing
            },
            Message::SystemSnapshot(snap) => {
                self.state.system = snap;
                Effect::Nothing
            },
            Message::ConfigReloaded => Effect::ReloadConfig,
            Message::NotificationReceived { id, app_name, summary, body } => {
                let e = NotifEntry { id, app_name, summary, body };
                retain_other_ids(&mut self.state.notifications, id);
                let ghost kept = self.state.notifications@;
                self.state.notifications.push(e);
                proof {
                    assert forall|a: int, c: int|
                        0 <= a < c < self.state.notifications@.len() implies self.state.notifications@[a].id
                        != self.state.notifications@[c].id by {
                        if c == kept.len() {
                            assert(kept[a].id != id);
                        }
                    }
                }
                if self.state.notifications.len() > NOTIFY_HISTORY_CAP {
                    self.state.notifications.remove(0);
                }
                Effect::Nothing
            },
            Message::NotificationClosed(id) => {
                retain_other_ids(&mut self.state.notifications, id);
                self.close_if_empty()
            },
            Message::NotifyDismiss(id) => {
                retain_other_ids(&mut self.state.notifications, id);
                self.close_if_empty()
            },
            Message::NotifyClearAll => {
                self.state.notifications.clear();
                self.close_if_empty()
            },
            Message::NotifyPanelToggle => {
                self.state.notify_panel_open = !self.state.notify_panel_open;
                Effect::Resize(self.surface_height_exec(self.state.notify_panel_open))
            },
            Message::WorkspaceSwitchRequested(id) => {
                let mut v: Vec<String> = Vec::new();
                v.push(own("hyprctl"));
                v.push(own("dispatch"));
                v.push(own("workspace"));
                v.push(dec_string(id as u64));
                assert(words(v@) =~= seq!["hyprctl"@, "dispatch"@, "workspace"@, dec(id as nat)]);
                argv_effect(v)
            },
            Message::VolumeAdjust(d) => {
                let mut v: Vec<String> = Vec::new();
                v.push(own("wpctl"));
                v.push(own("set-volume"));
                v.push(own("-l"));
                v.push(own("1.5"));
                v.push(own("@DEFAULT_AUDIO_SINK@"));
                v.push(step_arg_exec(d));
                assert(words(v@) =~= seq![
                    "wpctl"@,
                    "set-volume"@,
                    "-l"@,
                    "1.5"@,
                    "@DEFAULT_AUDIO_SINK@"@,
                    step_arg(d),
                ]);
                argv_effect(v)
            },
            Message::VolumeMuteToggle => {
                let mut v: Vec<String> = Vec::new();
                v.push(own("wpctl"));
                v.push(own("set-mute"));
                v.push(own("@DEFAULT_AUDIO_SINK@"));
                v.push(own("toggle"));
                assert(words(v@) =~= seq!["wpctl"@, "set-mute"@, "@DEFAULT_AUDIO_SINK@"@, "toggle"@]);
                argv_effect(v)
            },
            Message::BrightnessAdjust(d) => {
                let mut v: Vec<String> = Vec::new();
                v.push(own("brightnessctl"));
                v.push(own("set"));
                v.push(step_arg_exec(d));
                assert(words(v@) =~= seq!["brightnessctl"@, "set"@, step_arg(d)]);
                argv_effect(v)
            },
            Message::MediaPlayPause => {
                let mut v: Vec<String> = Vec::new();
                v.push(own("playerctl"));
                v.push(own("play-pause"));
                assert(words(v@) =~= seq!["playerctl"@, "play-pause"@]);
                argv_effect(v)
            },
            Message::MediaNext => {
                let mut v: Vec<String> = Vec::new();
                v.push(own("playerctl"));
                v.push(own("next"));
                assert(words(v@) =~= seq!["playerctl"@, "next"@]);
                argv_effect(v)
            },
            Message::MediaPrev => {
                let mut v: Vec<String> = Vec::new();
                v.push(own("playerctl"));
                v.push(own("previous"));
                assert(words(v@) =~= seq!["playerctl"@, "previous"@]);
                argv_effect(v)
            },
            Message::KeyboardLayoutNext => {
                let mut v: Vec<String> = Vec::new();
                v.push(own("hyprctl"));
                v.push(own("switchxkblayout"));
                v.push(own("all"));
                v.push(own("next"));
                assert(words(v@) =~= seq!["hyprctl"@, "switchxkblayout"@, "all"@, "next"@]);
                argv_effect(v)
            },
            Message::KeyboardLayoutPrev => {
                let mut v: Vec<String> = Vec::new();
                v.push(own("hyprctl"));
                v.push(own("switchxkblayout"));
                v.push(own("all"));
                v.push(own("prev"));
                assert(words(v@) =~= seq!["hyprctl"@, "switchxkblayout"@, "all"@, "prev"@]);
                argv_effect(v)
            },
            Message::Tick | Message::Shutdown => Effect::Nothing,
        }
    }

    /// Takes a freshly read configuration.  One with the launched geometry is
    /// applied whole; one that changes the geometry is applied but for the
    /// geometry, which stays as launched until a restart.
    pub fn apply_config(&mut self, cfg: BarConfig) -> (r: ConfigOutcome)
        requires
            old(self).wf(),
        ensures
            final(self).wf(),
            reloaded(*old(self), cfg, *final(self), r),
    {
        self.theme = Theme::from_config(&cfg.theme);
        if self.launched.differs(&cfg.global) {
            let mut kept = cfg;
            kept.global.height = self.launched.height;
            kept.global.position = self.launched.position;
            kept.global.margin = self.launched.margin;
            kept.global.margin_top = self.launched.margin_top;
            self.config = kept;
            ConfigOutcome::RestartRequired
        } else {
            self.config = cfg;
            ConfigOutcome::Applied
        }
    }
}

pub proof fn lemma_without_id(s: Seq<NotifEntry>, id: u32)
    ensures
        without_id(s, id).len() <= s.len(),
        forall|i: int|
            0 <= i < without_id(s, id).len() ==> (#[trigger] without_id(s, id)[i]).id != id
                && s.contains(without_id(s, id)[i]),
        ids_distinct(s) ==> ids_distinct(without_id(s, id)),
        (forall|i: int| 0 <= i < s.len() ==> (#[trigger] s[i]).id != id) ==> without_id(s, id) == s,
    decreases s.len(),
{
    reveal(Seq::filter);
    if s.len() > 0 {
        let p = s.drop_last();
        lemma_without_id(p, id);
        let w = without_id(s, id);
        let wp = without_id(p, id);
        assert forall|i: int| 0 <= i < wp.len() implies s.contains(#[trigger] wp[i]) by {
            let j = choose|j: int| 0 <= j < p.len() && p[j] == wp[i];
            assert(s[j] == wp[i]);
        }
        if s.last().id != id {
            assert(w == wp.push(s.last()));
            assert(s.contains(s.last())) by {
                assert(s[s.len() - 1] == s.last());
            }
            if ids_distinct(s) {
                assert(ids_distinct(p));
                assert forall|a: int, c: int| 0 <= a < c < w.len() implies w[a].id != w[c].id by {
                    if c == wp.len() {
                        let j = choose|j: int| 0 <= j < p.len() && p[j] == wp[a];
                        assert(s[j] == p[j]);
                        assert(s[s.len() - 1] == s.last());
                    }
                }
            }
            if forall|i: int| 0 <= i < s.len() ==> (#[trigger] s[i]).id != id {
                assert forall|i: int| 0 <= i < p.len() implies (#[trigger] p[i]).id != id by {
                    assert(s[i] == p[i]);
                }
                assert(s =~= p.push(s.last()));
            }
        } else {
            assert(w == wp);
            if ids_distinct(s) {
                assert(ids_distinct(p));
            }
            assert(s[s.len() - 1] == s.last());
        }
    }
}

/// Receiving a notification whose id is already listed leaves exactly one
/// entry with that id: the new one, placed last; ids stay distinct.
pub proof fn law_receive_replaces(s: Seq<NotifEntry>, e: NotifEntry)
    requires
        ids_distinct(s),
        s.len() <= NOTIFY_HISTORY_CAP,
    ensures
        ids_distinct(after_receive(s, e)),
        after_receive(s, e).len() >= 1,
        after_receive(s, e).last() == e,
        forall|i: int|
            0 <= i < after_receive(s, e).len() - 1 ==> (#[trigger] after_receive(s, e)[i]).id != e.id,
{
    lemma_without_id(s, e.id);
    let w = without_id(s, e.id);
    let t = w.push(e);
    assert forall|a: int, c: int| 0 <= a < c < t.len() implies t[a].id != t[c].id by {
        if c == w.len() {
            assert(w[a].id != e.id);
        }
    }
    assert forall|i: int| 0 <= i < t.len() - 1 implies (#[trigger] t[i]).id != e.id by {
        assert(t[i] == w[i]);
    }
    if t.len() > NOTIFY_HISTORY_CAP {
        let d = t.drop_first();
        assert forall|i: int| 0 <= i < d.len() - 1 implies (#[trigger] d[i]).id != e.id by {
            assert(d[i] == t[i + 1]);
        }
        assert forall|a: int, c: int| 0 <= a < c < d.len() implies d[a].id != d[c].id by {
            assert(d[a] == t[a + 1] && d[c] == t[c + 1]);
        }
    }
}

/// The list never holds more than the cap; when a full list receives a
/// notification with a new id, the entry that arrived first leaves and the new
/// one goes last.
pub proof fn law_receive_evicts_oldest(s: Seq<NotifEntry>, e: NotifEntry)
    requires
        ids_distinct(s),
        s.len() <= NOTIFY_HISTORY_CAP,
    ensures
        after_receive(s, e).len() <= NOTIFY_HISTORY_CAP,
        s.len() == NOTIFY_HISTORY_CAP && (forall|i: int| 0 <= i < s.len() ==> (#[trigger] s[i]).id != e.id)
            ==> after_receive(s, e) == s.drop_first().push(e),
{
    lemma_without_id(s, e.id);
    if s.len() == NOTIFY_HISTORY_CAP && (forall|i: int| 0 <= i < s.len() ==> (#[trigger] s[i]).id != e.id) {
        assert(s.push(e).drop_first() =~= s.drop_first().push(e));
    }
}

/// Reloading a configuration that changes a structural field (height, edge,
/// margins) leaves the geometry in force as launched and asks for a restart;
/// one that changes only live fields (the accent colour, say) is applied
/// whole, with the theme rebuilt from it and no restart.
pub proof fn law_reload(b: Bar, cfg: BarConfig, c: Bar, r: ConfigOutcome)
    requires
        b.wf(),
        reloaded(b, cfg, c, r),
    ensures
        c.wf(),
        geometry_of(c.config.global) == geometry_of(b.config.global),
        c.theme == theme_of(cfg.theme),
        geometry_of(cfg.global) != geometry_of(b.config.global) ==> r == ConfigOutcome::RestartRequired,
        geometry_of(cfg.global) == geometry_of(b.config.global) ==> r == ConfigOutcome::Applied
            && c.config == cfg,
{
}

} // verus!
