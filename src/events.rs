//! The window manager's event-socket protocol: one `<name>>><data>` line per event.
use vstd::prelude::*;
use crate::text::{
    chars_of, dec, eq_str, lacks, lemma_parse_dec, lemma_split_at, parse_u32, parse_u32_exec, split_once,
    split_once_exec, string_from, trim, trim_chars,
};

verus! {

/// All events emitted by the window manager's event socket.
#[derive(Debug, Clone)]
pub enum HyprlandEvent {
    Workspace(WorkspaceEvent),
    ActiveWindow(ActiveWindowEvent),
    Fullscreen(bool),
    MonitorFocused(String),
    /// Active keyboard layout changed.  Carries the layout name.
    ActiveLayout(String),
    /// A line that names no event handled here; carries the raw line.
    Unknown(String),
}

#[derive(Debug, Clone)]
pub struct WorkspaceEvent {
    pub id: u32,
    pub name: String,
}

#[derive(Debug, Clone)]
pub struct ActiveWindowEvent {
    pub class: String,
    pub title: String,
}

/// One entry of the workspace list that the command socket returns as JSON.
#[derive(Debug, Clone)]
pub struct WorkspaceInfo {
    pub id: i32,
    pub name: String,
    pub monitor: String,
    pub windows: u32,
}

/// What an event line denotes, over character sequences.
pub enum EventView {
    Workspace { id: u32, name: Seq<char> },
    ActiveWindow { class: Seq<char>, title: Seq<char> },
    Fullscreen(bool),
    MonitorFocused(Seq<char>),
    ActiveLayout(Seq<char>),
    Unknown(Seq<char>),
}

impl View for HyprlandEvent {
    type V = EventView;

    open spec fn view(&self) -> EventView {
        match self {
            HyprlandEvent::Workspace(w) => EventView::Workspace { id: w.id, name: w.name@ },
            HyprlandEvent::ActiveWindow(a) => EventView::ActiveWindow {
                class: a.class@,
                title: a.title@,
            },
            HyprlandEvent::Fullscreen(b) => EventView::Fullscreen(*b),
            HyprlandEvent::MonitorFocused(m) => EventView::MonitorFocused(m@),
            HyprlandEvent::ActiveLayout(l) => EventView::ActiveLayout(l@),
            HyprlandEvent::Unknown(u) => EventView::Unknown(u@),
        }
    }
}

/// The event that the data `data` of an event named `name` denotes; `line`
/// is the whole line, kept for names that are not handled.
pub open spec fn parse_named(line: Seq<char>, name: Seq<char>, data: Seq<char>) -> EventView {
    if name == "workspace"@ || name == "workspacev2"@ {
        let (id_text, ws_name) = match split_once(data, ","@) {
            Some(p) => p,
            None => (data, data),
        };
        EventView::Workspace {
            id: match parse_u32(trim(id_text)) {
                Some(n) => n,
                None => 0,
            },
            name: trim(ws_name),
        }
    } else if name == "activewindow"@ || name == "activewindowv2"@ {
        match split_once(data, ","@) {
            Some((c, t)) => EventView::ActiveWindow { class: trim(c), title: trim(t) },
            None => EventView::ActiveWindow { class: trim(data), title: Seq::empty() },
        }
    } else if name == "fullscreen"@ {
        EventView::Fullscreen(trim(data) == "1"@)
    } else if name == "monitoradded"@ || name == "monitorfocused"@ {
        EventView::MonitorFocused(trim(data))
    } else if name == "activelayout"@ {
        match split_once(data, ","@) {
            Some((_keyboard, layout)) => EventView::ActiveLayout(trim(layout)),
            None => EventView::ActiveLayout(trim(data)),
        }
    } else {
        EventView::Unknown(line)
    }
}

/// The event that a raw line denotes: the name is what stands before the first
/// `>>`, the data what follows it; a line without `>>` is unknown.
pub open spec fn parse_line(line: Seq<char>) -> EventView {
    match split_once(line, ">>"@) {
        Some((name, data)) => parse_named(line, name, data),
        None => EventView::Unknown(line),
    }
}

/// Parse a raw event line into a typed [`HyprlandEvent`].  Never fails:
/// lines that name no handled event become `Unknown`.
pub fn parse_event(line: &str) -> (r: HyprlandEvent)
    ensures
        r@ == parse_line(line@),
{
    let v = chars_of(line);
    let sep = chars_of(">>");
    match split_once_exec(&v, &sep) {
        None => HyprlandEvent::Unknown(string_from(&v)),
        Some((name, data)) => parse_fields(&v, &name, &data),
    }
}

fn parse_fields(line: &Vec<char>, name: &Vec<char>, data: &Vec<char>) -> (r: HyprlandEvent)
    ensures
        r@ == parse_named(line@, name@, data@),
{
    let comma = chars_of(",");
    if eq_str(name, "workspace") || eq_str(name, "workspacev2") {
        let (id_text, ws_name) = match split_once_exec(data, &comma) {
            Some(p) => p,
            None => (data.clone(), data.clone()),
        };
        let id = match parse_u32_exec(&trim_chars(&id_text)) {
            Some(n) => n,
            None => 0,
        };
        HyprlandEvent::Workspace(WorkspaceEvent { id, name: string_from(&trim_chars(&ws_name)) })
    } else if eq_str(name, "activewindow") || eq_str(name, "activewindowv2") {
        match split_once_exec(data, &comma) {
            Some((c, t)) => HyprlandEvent::ActiveWindow(
                ActiveWindowEvent {
                    class: string_from(&trim_chars(&c)),
                    title: string_from(&trim_chars(&t)),
                },
            ),
            None => {
                let empty: Vec<char> = Vec::new();
                HyprlandEvent::ActiveWindow(
                    ActiveWindowEvent {
                        class: string_from(&trim_chars(data)),
                        title: string_from(&empty),
                    },
                )
            },
        }
    } else if eq_str(name, "fullscreen") {
        HyprlandEvent::Fullscreen(eq_str(&trim_chars(data), "1"))
    } else if eq_str(name, "monitoradded") || eq_str(name, "monitorfocused") {
        HyprlandEvent::MonitorFocused(string_from(&trim_chars(data)))
    } else if eq_str(name, "activelayout") {
        match split_once_exec(data, &comma) {
            Some((_keyboard, layout)) => HyprlandEvent::ActiveLayout(
                string_from(&trim_chars(&layout)),
            ),
            None => HyprlandEvent::ActiveLayout(string_from(&trim_chars(data))),
        }
    } else {
        HyprlandEvent::Unknown(string_from(line))
    }
}

/// A `workspacev2` line whose id field holds no comma yields a workspace event
/// whose id is the number that the trimmed id field denotes (0 when it denotes
/// none) and whose name is the trimmed rest of the line, commas included.
pub proof fn law_workspace_line(id_text: Seq<char>, name: Seq<char>)
    requires
        lacks(id_text, ','),
    ensures
        parse_line("workspacev2>>"@ + id_text + ","@ + name) == (EventView::Workspace {
            id: match parse_u32(trim(id_text)) {
                Some(n) => n,
                None => 0,
            },
            name: trim(name),
        }),
{
    reveal_strlit("workspacev2>>");
    reveal_strlit("workspacev2");
    reveal_strlit(">>");
    reveal_strlit(",");
    let head = "workspacev2"@;
    let data = id_text + ","@ + name;
    assert("workspacev2>>"@ + id_text + ","@ + name =~= head + ">>"@ + data);
    assert(lacks(head, '>'));
    lemma_split_at(head, ">>"@, data);
    assert(data =~= id_text + ","@ + name);
    lemma_split_at(id_text, ","@, name);
}

/// In an `activewindow` line only the first comma splits the class from the
/// title: a title that holds further commas is kept whole (both trimmed).
pub proof fn law_active_window_line(class: Seq<char>, title: Seq<char>)
    requires
        lacks(class, ','),
    ensures
        parse_line("activewindow>>"@ + class + ","@ + title) == (EventView::ActiveWindow {
            class: trim(class),
            title: trim(title),
        }),
{
    reveal_strlit("activewindow>>");
    reveal_strlit("activewindow");
    reveal_strlit("workspace");
    reveal_strlit("workspacev2");
    reveal_strlit(">>");
    reveal_strlit(",");
    let head = "activewindow"@;
    let data = class + ","@ + title;
    assert("activewindow>>"@ + class + ","@ + title =~= head + ">>"@ + data);
    assert(lacks(head, '>'));
    lemma_split_at(head, ">>"@, data);
    lemma_split_at(class, ","@, title);
    assert(head != "workspace"@);
    assert(head != "workspacev2"@);
}

/// A `workspacev2` line whose id field is the decimal form of a number
/// yields a workspace event with exactly that id and the trimmed name.
pub proof fn law_workspace_number(n: u32, name: Seq<char>)
    ensures
        parse_line("workspacev2>>"@ + dec(n as nat) + ","@ + name) == (EventView::Workspace {
            id: n,
            name: trim(name),
        }),
{
    lemma_parse_dec(n);
    law_workspace_line(dec(n as nat), name);
}

} // verus!
