use bar::events::{parse_event, ActiveWindowEvent, HyprlandEvent, WorkspaceEvent};
use bar::ipc::{convert_hypr_event, IpcLink, LinkAction, LinkEvent, LinkState};
use bar::state::Message;

#[test]
fn parse_workspacev2_event() {
    let event = parse_event("workspacev2>>3,coding");
    assert!(matches!(
        event,
        HyprlandEvent::Workspace(WorkspaceEvent { id: 3, .. })
    ));
}

#[test]
fn parse_active_window() {
    let event = parse_event("activewindow>>kitty,~/projects");
    if let HyprlandEvent::ActiveWindow(e) = event {
        assert_eq!(e.class, "kitty");
        assert_eq!(e.title, "~/projects");
    } else {
        panic!("wrong variant");
    }
}

#[test]
fn parse_unknown_event() {
    let event = parse_event("somefutureevent>>data");
    assert!(matches!(event, HyprlandEvent::Unknown(_)));
}

#[test]
fn workspace_line_keeps_exact_trimmed_name() {
    match parse_event("workspacev2>> 42 ,  my code, notes  ") {
        HyprlandEvent::Workspace(WorkspaceEvent { id, name }) => {
            assert_eq!(id, 42);
            assert_eq!(name, "my code, notes");
        }
        other => panic!("unexpected {other:?}"),
    }
}

#[test]
fn workspace_line_non_numeric_id_is_zero() {
    match parse_event("workspacev2>>abc,web") {
        HyprlandEvent::Workspace(WorkspaceEvent { id, name }) => {
            assert_eq!(id, 0);
            assert_eq!(name, "web");
        }
        other => panic!("unexpected {other:?}"),
    }
    match parse_event("workspacev2>>99999999999,big") {
        HyprlandEvent::Workspace(WorkspaceEvent { id, .. }) => assert_eq!(id, 0),
        other => panic!("unexpected {other:?}"),
    }
    match parse_event("workspacev2>>+7,plus") {
        HyprlandEvent::Workspace(WorkspaceEvent { id, .. }) => assert_eq!(id, 7),
        other => panic!("unexpected {other:?}"),
    }
}

#[test]
fn workspace_v1_line_uses_data_for_both_fields() {
    match parse_event("workspace>>5") {
        HyprlandEvent::Workspace(WorkspaceEvent { id, name }) => {
            assert_eq!(id, 5);
            assert_eq!(name, "5");
        }
        other => panic!("unexpected {other:?}"),
    }
}

#[test]
fn active_window_title_keeps_later_commas() {
    match parse_event("activewindow>>kitty,a,b,c") {
        HyprlandEvent::ActiveWindow(ActiveWindowEvent { class, title }) => {
            assert_eq!(class, "kitty");
            assert_eq!(title, "a,b,c");
        }
        other => panic!("unexpected {other:?}"),
    }
}

#[test]
fn active_window_without_comma_has_empty_title() {
    match parse_event("activewindowv2>>  firefox ") {
        HyprlandEvent::ActiveWindow(ActiveWindowEvent { class, title }) => {
            assert_eq!(class, "firefox");
            assert_eq!(title, "");
        }
        other => panic!("unexpected {other:?}"),
    }
}

#[test]
fn fullscreen_layout_and_monitor_lines() {
    assert!(matches!(parse_event("fullscreen>>1"), HyprlandEvent::Fullscreen(true)));
    assert!(matches!(parse_event("fullscreen>> 0"), HyprlandEvent::Fullscreen(false)));
    match parse_event("activelayout>>at-translated-set-2-keyboard,English (US)") {
        HyprlandEvent::ActiveLayout(l) => assert_eq!(l, "English (US)"),
        other => panic!("unexpected {other:?}"),
    }
    match parse_event("monitorfocused>>DP-1,2") {
        HyprlandEvent::MonitorFocused(m) => assert_eq!(m, "DP-1,2"),
        other => panic!("unexpected {other:?}"),
    }
}

#[test]
fn line_without_separator_is_unknown_and_kept() {
    match parse_event("garbage line") {
        HyprlandEvent::Unknown(raw) => assert_eq!(raw, "garbage line"),
        other => panic!("unexpected {other:?}"),
    }
}

#[test]
fn events_become_messages() {
    assert!(matches!(
        convert_hypr_event(parse_event("workspace>>4")),
        Some(Message::WorkspaceChanged(4))
    ));
    assert!(matches!(
        convert_hypr_event(parse_event("activewindow>>kitty,")),
        Some(Message::ActiveWindowChanged(None))
    ));
    match convert_hypr_event(parse_event("activewindow>>kitty,vim")) {
        Some(Message::ActiveWindowChanged(Some(t))) => assert_eq!(t, "vim"),
        other => panic!("unexpected {other:?}"),
    }
    assert!(convert_hypr_event(parse_event("monitoradded>>HDMI-A-1")).is_none());
    assert!(convert_hypr_event(parse_event("openwindow>>x")).is_none());
}

#[test]
fn unknown_lines_never_end_the_session() {
    let mut link = IpcLink::new();
    assert!(matches!(link.step(LinkEvent::Retry), LinkAction::Connect));
    assert!(matches!(link.step(LinkEvent::ConnectOk), LinkAction::FetchWorkspaces));
    for i in 0..1000 {
        let a = link.step(LinkEvent::Line(format!("futureevent{i}>>payload")));
        assert!(matches!(a, LinkAction::ReadNext));
        assert_eq!(link.state, LinkState::Connected);
    }
    match link.step(LinkEvent::Line("workspacev2>>7,mail".to_string())) {
        LinkAction::Forward(Message::WorkspaceChanged(7)) => {}
        other => panic!("unexpected {other:?}"),
    }
}

#[test]
fn socket_errors_wait_and_reconnect() {
    let mut link = IpcLink::new();
    link.step(LinkEvent::Retry);
    assert!(matches!(link.step(LinkEvent::ConnectFailed), LinkAction::Wait(2)));
    assert_eq!(link.state, LinkState::Disconnected);
    assert!(matches!(link.step(LinkEvent::Retry), LinkAction::Connect));
    link.step(LinkEvent::ConnectOk);
    assert!(matches!(link.step(LinkEvent::StreamEnded), LinkAction::Wait(2)));
    assert_eq!(link.state, LinkState::Disconnected);
}

#[test]
fn dropped_receiver_stops_the_session() {
    let mut link = IpcLink::new();
    link.step(LinkEvent::Retry);
    link.step(LinkEvent::ConnectOk);
    assert!(matches!(link.step(LinkEvent::ReceiverGone), LinkAction::Stop));
    assert_eq!(link.state, LinkState::Stopped);
    assert!(matches!(link.step(LinkEvent::Retry), LinkAction::Stop));
    assert!(matches!(
        link.step(LinkEvent::Line("workspace>>1".to_string())),
        LinkAction::Stop
    ));
}
