use bar::events::WorkspaceInfo as IpcWorkspace;
use bar::ipc::{ipc_to_core_workspace, HyprlandIpc};
use bar::state::BarError;

#[test]
fn sockets_found_from_signature_and_runtime_dir() {
    let ipc = HyprlandIpc::new(Some("abc123"), Some("/run/user/42")).unwrap();
    assert_eq!(ipc.event_socket(), "/run/user/42/hypr/abc123/.socket2.sock");
    assert_eq!(ipc.cmd_socket(), "/run/user/42/hypr/abc123/.socket.sock");
}

#[test]
fn runtime_dir_defaults() {
    let ipc = HyprlandIpc::new(Some("sig"), None).unwrap();
    assert_eq!(ipc.event_socket(), "/run/user/1000/hypr/sig/.socket2.sock");
    let ipc = HyprlandIpc::new(Some(""), Some("/tmp")).unwrap();
    assert_eq!(ipc.event_socket(), "/tmp/hypr/.socket2.sock");
}

#[test]
fn missing_signature_is_an_ipc_error() {
    match HyprlandIpc::new(None, Some("/run/user/1")) {
        Err(BarError::Ipc(m)) => {
            assert_eq!(m, "HYPRLAND_INSTANCE_SIGNATURE not set \u{2014} is Hyprland running?")
        }
        other => panic!("unexpected {other:?}"),
    }
    assert_eq!(
        BarError::Ipc("x".to_string()).message(),
        "IPC error: x"
    );
}

#[test]
fn negative_workspace_ids_keep_magnitude() {
    let w = ipc_to_core_workspace(IpcWorkspace {
        id: -98,
        name: "special".to_string(),
        monitor: "DP-1".to_string(),
        windows: 2,
    });
    assert_eq!(w.id, 98);
    assert_eq!(w.name, "special");
    assert_eq!(w.windows, 2);
    let w = ipc_to_core_workspace(IpcWorkspace {
        id: i32::MIN,
        name: String::new(),
        monitor: String::new(),
        windows: 0,
    });
    assert_eq!(w.id, 2147483648);
}
