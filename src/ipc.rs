//! The window-manager client: socket discovery, the reconnecting event
//! session as a state machine, and the mapping from events to messages.
//!
//! The caller owns the sockets and the timer: it performs each [`LinkAction`]
//! and reports what happened as a [`LinkEvent`].
use vstd::prelude::*;
use crate::config::own;
use crate::events::{parse_event, parse_line, EventView, HyprlandEvent};
use crate::state::{BarError, Message, WorkspaceInfo};
use crate::text::{push_chars, push_str, string_from};

verus! {

/// Seconds to wait after a socket error before connecting again.
pub const RECONNECT_DELAY_SECS: u64 = 2;

/// Paths of the window manager's two sockets.
#[derive(Debug, Clone)]
pub struct HyprlandIpc {
    /// The event socket (`.socket2.sock`).
    event_socket: String,
    /// The command socket (`.socket.sock`).
    cmd_socket: String,
}

/// `base` joined with a relative file name, as `Path::join` does it.
pub open spec fn join(base: Seq<char>, name: Seq<char>) -> Seq<char> {
    if base.len() > 0 && base.last() == '/' {
        base + name
    } else {
        base + "/"@ + name
    }
}

/// The instance directory: `<runtime dir>/hypr/<signature>`.
pub open spec fn instance_dir(runtime_dir: Seq<char>, signature: Seq<char>) -> Seq<char> {
    runtime_dir + "/hypr/"@ + signature
}

fn join_exec(base: &Vec<char>, name: &str) -> (r: String)
    ensures
        r@ == join(base@, name@),
{
    let mut out: Vec<char> = Vec::new();
    push_chars(&mut out, base);
    if !(base.len() > 0 && base[base.len() - 1] == '/') {
        push_str(&mut out, "/");
    }
    push_str(&mut out, name);
    proof {
        if base@.len() > 0 && base@.last() == '/' {
            assert(out@ =~= base@ + name@);
        } else {
            assert(out@ =~= base@ + "/"@ + name@);
        }
    }
    string_from(&out)
}

impl HyprlandIpc {
    pub closed spec fn spec_event_socket(&self) -> Seq<char> {
        self.event_socket@
    }

    pub closed spec fn spec_cmd_socket(&self) -> Seq<char> {
        self.cmd_socket@
    }

    /// Finds the sockets from the instance signature and the runtime
    /// directory (`/run/user/1000` when that is not given).  Without a
    /// signature the window manager is not running: an IPC error.
    pub fn new(signature: Option<&str>, runtime_dir: Option<&str>) -> (r: Result<
        HyprlandIpc,
        BarError,
    >)
        ensures
            signature is None ==> (r matches Err(BarError::Ipc(m)) && m@
                == "HYPRLAND_INSTANCE_SIGNATURE not set \u{2014} is Hyprland running?"@),
            signature matches Some(sig) ==> (r matches Ok(c) && {
                let dir = instance_dir(
                    match runtime_dir {
                        Some(d) => d@,
                        None => "/run/user/1000"@,
                    },
                    sig@,
                );
                &&& c.spec_event_socket() == join(dir, ".socket2.sock"@)
                &&& c.spec_cmd_socket() == join(dir, ".socket.sock"@)
            }),
    {
        match signature {
            None => Err(
                BarError::Ipc(own("HYPRLAND_INSTANCE_SIGNATURE not set \u{2014} is Hyprland running?")),
            ),
            Some(sig) => {
                let mut base: Vec<char> = Vec::new();
                match runtime_dir {
                    Some(d) => push_str(&mut base, d),
                    None => push_str(&mut base, "/run/user/1000"),
                }
                push_str(&mut base, "/hypr/");
                push_str(&mut base, sig);
                let ghost dir = instance_dir(
                    match runtime_dir {
                        Some(d) => d@,
                        None => "/run/user/1000"@,
                    },
                    sig@,
                );
                assert(base@ =~= dir);
                Ok(
                    HyprlandIpc {
                        event_socket: join_exec(&base, ".socket2.sock"),
                        cmd_socket: join_exec(&base, ".socket.sock"),
                    },
                )
            },
        }
    }

    /// Path to the event socket.
    pub fn event_socket(&self) -> (r: &str)
        ensures
            r@ == self.spec_event_socket(),
    {
        self.event_socket.as_str()
    }

    /// Path to the command socket.
    pub fn cmd_socket(&self) -> (r: &str)
        ensures
            r@ == self.spec_cmd_socket(),
    {
        self.cmd_socket.as_str()
    }
}

/// Whether `m` is the message that event `ev` becomes (`None`: no message).
pub open spec fn converts(ev: EventView, m: Option<Message>) -> bool {
    match ev {
        EventView::Workspace { id, name: _ } => m == Some(Message::WorkspaceChanged(id)),
        EventView::ActiveWindow { class: _, title } => if title.len() == 0 {
            m == Some(Message::ActiveWindowChanged(None))
        } else {
            m matches Some(Message::ActiveWindowChanged(Some(t))) && t@ == title
        },
        EventView::Fullscreen(f) => m == Some(Message::FullscreenStateChanged(f)),
        EventView::ActiveLayout(l) => m matches Some(Message::KeyboardLayoutChanged(k)) && k@ == l,
        EventView::MonitorFocused(_) => m is None,
        EventView::Unknown(_) => m is None,
    }
}

/// The message that an event becomes, if any: monitor and unknown events
/// are dropped, an empty window title means no focused window.
pub fn convert_hypr_event(event: HyprlandEvent) -> (r: Option<Message>)
    ensures
        converts(event@, r),
{
    match event {
        HyprlandEvent::Workspace(ws) => Some(Message::WorkspaceChanged(ws.id)),
        HyprlandEvent::ActiveWindow(aw) => {
            let title = if aw.title.as_str().is_empty() {
                None
            } else {
                Some(aw.title)
            };
            Some(Message::ActiveWindowChanged(title))
        },
        HyprlandEvent::Fullscreen(fs) => Some(Message::FullscreenStateChanged(fs)),
        HyprlandEvent::ActiveLayout(layout) => Some(Message::KeyboardLayoutChanged(layout)),
        HyprlandEvent::MonitorFocused(_) | HyprlandEvent::Unknown(_) => None,
    }
}

/// A workspace as the command socket lists it, in the bar's own shape: the
/// id's magnitude is kept.
pub fn ipc_to_core_workspace(w: crate::events::WorkspaceInfo) -> (r: WorkspaceInfo)
    ensures
        r.id as int == (if w.id < 0 {
            -(w.id as int)
        } else {
            w.id as int
        }),
        r.name == w.name,
        r.monitor == w.monitor,
        r.windows == w.windows,
{
    let id: u32 = if w.id == i32::MIN {
        2147483648u32
    } else if w.id < 0 {
        (-w.id) as u32
    } else {
        w.id as u32
    };
    WorkspaceInfo { id, name: w.name, monitor: w.monitor, windows: w.windows }
}

/// Where the event session stands.
#[derive(Debug, Clone, Copy, PartialEq, Eq, Structural)]
pub enum LinkState {
    /// No connection; waiting before the next attempt.
    Disconnected,
    /// A connection attempt is under way.
    Connecting,
    /// Streaming events.
    Connected,
    /// The consumer is gone; the session has ended for good.
    Stopped,
}

/// What happened, as the caller reports it.
#[derive(Debug)]
pub enum LinkEvent {
    /// The session starts, or the wait after an error has elapsed.
    Retry,
    /// The event socket accepted the connection.
    ConnectOk,
    /// Connecting failed.
    ConnectFailed,
    /// One line arrived on the event socket.
    Line(String),
    /// The stream ended or failed.
    StreamEnded,
    /// The receiving end of the message channel was dropped.
    ReceiverGone,
}

/// What the caller should do next.
#[derive(Debug)]
pub enum LinkAction {
    /// Connect to the event socket.
    Connect,
    /// Fetch the full workspace list, then read lines.
    FetchWorkspaces,
    /// Send this message to the reducer, then read the next line.
    Forward(Message),
    /// Read the next line.
    ReadNext,
    /// Wait this many seconds, then report `Retry`.
    Wait(u64),
    /// End the task.
    Stop,
    /// Nothing to do for this event in this state.
    Ignore,
}

/// The state that an event leads to.
pub open spec fn link_next(s: LinkState, ev: LinkEvent) -> LinkState {
    match (s, ev) {
        (LinkState::Stopped, _) => LinkState::Stopped,
        (_, LinkEvent::ReceiverGone) => LinkState::Stopped,
        (LinkState::Disconnected, LinkEvent::Retry) => LinkState::Connecting,
        (LinkState::Connecting, LinkEvent::ConnectOk) => LinkState::Connected,
        (LinkState::Connecting, LinkEvent::ConnectFailed) => LinkState::Disconnected,
        (LinkState::Connected, LinkEvent::StreamEnded) => LinkState::Disconnected,
        _ => s,
    }
}

/// The action that an event asks for in state `s`; `m` is the message that
/// a line yields, when the event is a line.
pub open spec fn link_action(s: LinkState, ev: LinkEvent, a: LinkAction) -> bool {
    match (s, ev) {
        (LinkState::Stopped, _) => a is Stop,
        (_, LinkEvent::ReceiverGone) => a is Stop,
        (LinkState::Disconnected, LinkEvent::Retry) => a is Connect,
        (LinkState::Connecting, LinkEvent::ConnectOk) => a is FetchWorkspaces,
        (LinkState::Connecting, LinkEvent::ConnectFailed) => a == LinkAction::Wait(RECONNECT_DELAY_SECS),
        (LinkState::Connected, LinkEvent::StreamEnded) => a == LinkAction::Wait(RECONNECT_DELAY_SECS),
        (LinkState::Connected, LinkEvent::Line(l)) => match a {
            LinkAction::Forward(m) => converts(parse_line(l@), Some(m)),
            LinkAction::ReadNext => converts(parse_line(l@), None),
            _ => false,
        },
        _ => a is Ignore,
    }
}

/// The reconnecting event session.
#[derive(Debug)]
pub struct IpcLink {
    pub state: LinkState,
}

impl IpcLink {
    pub fn new() -> (r: IpcLink)
        ensures
            r.state == LinkState::Disconnected,
    {
        IpcLink { state: LinkState::Disconnected }
    }

    /// Takes one event and says what to do next.
    pub fn step(&mut self, ev: LinkEvent) -> (r: LinkAction)
        ensures
            final(self).state == link_next(old(self).state, ev),
            link_action(old(self).state, ev, r),
    {
        match (self.state, ev) {
            (LinkState::Stopped, _) => LinkAction::Stop,
            (_, LinkEvent::ReceiverGone) => {
                self.state = LinkState::Stopped;
                LinkAction::Stop
            },
            (LinkState::Disconnected, LinkEvent::Retry) => {
                self.state = LinkState::Connecting;
                LinkAction::Connect
            },
            (LinkState::Connecting, LinkEvent::ConnectOk) => {
                self.state = LinkState::Connected;
                LinkAction::FetchWorkspaces
            },
            (LinkState::Connecting, LinkEvent::ConnectFailed) => {
                self.state = LinkState::Disconnected;
                LinkAction::Wait(RECONNECT_DELAY_SECS)
            },
            (LinkState::Connected, LinkEvent::StreamEnded) => {
                self.state = LinkState::Disconnected;
                LinkAction::Wait(RECONNECT_DELAY_SECS)
            },
            (LinkState::Connected, LinkEvent::Line(l)) => {
                match convert_hypr_event(parse_event(l.as_str())) {
                    Some(m) => LinkAction::Forward(m),
                    None => LinkAction::ReadNext,
                }
            },
            _ => LinkAction::Ignore,
        }
    }
}

/// The state after a run of lines, starting from `s`.
pub open spec fn after_lines(s: LinkState, lines: Seq<String>) -> LinkState
    decreases lines.len(),
{
    if lines.len() == 0 {
        s
    } else {
        after_lines(link_next(s, LinkEvent::Line(lines[0])), lines.drop_first())
    }
}

/// No line ends a connection: from `Connected`, any run of lines, however
/// many name unknown events, leaves the session connected, so the line after
/// them is still read and turned into its event.
pub proof fn law_lines_keep_connection(lines: Seq<String>)
    ensures
        after_lines(LinkState::Connected, lines) == LinkState::Connected,
        forall|l: String|
            #![trigger link_next(LinkState::Connected, LinkEvent::Line(l))]
            link_next(LinkState::Connected, LinkEvent::Line(l)) == LinkState::Connected,
    decreases lines.len(),
{
    if lines.len() > 0 {
        law_lines_keep_connection(lines.drop_first());
    }
}

/// Once the consumer is gone the session stops at the next event, whatever
/// state it was in, and stays stopped.
pub proof fn law_receiver_gone_stops(s: LinkState, ev: LinkEvent, a: LinkAction)
    requires
        link_action(s, LinkEvent::ReceiverGone, a),
    ensures
        link_next(s, LinkEvent::ReceiverGone) == LinkState::Stopped,
        a is Stop,
        link_next(LinkState::Stopped, ev) == LinkState::Stopped,
{
}

} // verus!
