use bar::config::{BarConfig, Position};
use bar::reducer::{Bar, ConfigOutcome, Effect};
use bar::state::{Message, NotifEntry};

fn receive(bar: &mut Bar, id: u32, summary: &str) -> Effect {
    bar.handle_app(Message::NotificationReceived {
        id,
        app_name: "app".to_string(),
        summary: summary.to_string(),
        body: format!("body of {summary}"),
    })
}

fn ids(list: &[NotifEntry]) -> Vec<u32> {
    list.iter().map(|n| n.id).collect()
}

fn argv(e: Effect) -> Vec<String> {
    match e {
        Effect::Spawn(v) => v,
        other => panic!("expected a command, got {other:?}"),
    }
}

#[test]
fn replaced_notification_leaves_one_entry() {
    let mut bar = Bar::new(BarConfig::default(), 0);
    receive(&mut bar, 1, "first");
    receive(&mut bar, 2, "second");
    receive(&mut bar, 1, "updated");
    assert_eq!(ids(&bar.state.notifications), vec![2, 1]);
    let n = &bar.state.notifications[1];
    assert_eq!(n.summary, "updated");
    assert_eq!(n.body, "body of updated");
}

#[test]
fn history_is_capped_and_evicts_oldest() {
    let mut bar = Bar::new(BarConfig::default(), 0);
    for id in 1..=50 {
        receive(&mut bar, id, "n");
    }
    assert_eq!(bar.state.notifications.len(), 50);
    receive(&mut bar, 51, "n");
    assert_eq!(bar.state.notifications.len(), 50);
    assert_eq!(bar.state.notifications[0].id, 2);
    assert_eq!(bar.state.notifications[49].id, 51);
    for id in 100..200 {
        receive(&mut bar, id, "n");
        assert!(bar.state.notifications.len() <= 50);
    }
}

#[test]
fn panel_toggle_resizes_surface() {
    let mut bar = Bar::new(BarConfig::default(), 0);
    assert!(matches!(bar.handle_app(Message::NotifyPanelToggle), Effect::Resize(340)));
    assert!(bar.state.notify_panel_open);
    assert!(matches!(bar.handle_app(Message::NotifyPanelToggle), Effect::Resize(40)));
    assert!(!bar.state.notify_panel_open);
}

#[test]
fn last_dismiss_closes_open_panel() {
    let mut bar = Bar::new(BarConfig::default(), 0);
    receive(&mut bar, 3, "a");
    receive(&mut bar, 4, "b");
    bar.handle_app(Message::NotifyPanelToggle);
    assert!(matches!(bar.handle_app(Message::NotifyDismiss(3)), Effect::Nothing));
    assert!(bar.state.notify_panel_open);
    assert!(matches!(bar.handle_app(Message::NotificationClosed(4)), Effect::Resize(40)));
    assert!(!bar.state.notify_panel_open);
    assert!(bar.state.notifications.is_empty());
}

#[test]
fn clear_all_closes_panel_only_when_open() {
    let mut bar = Bar::new(BarConfig::default(), 0);
    receive(&mut bar, 9, "a");
    assert!(matches!(bar.handle_app(Message::NotifyClearAll), Effect::Nothing));
    receive(&mut bar, 9, "a");
    bar.handle_app(Message::NotifyPanelToggle);
    assert!(matches!(bar.handle_app(Message::NotifyClearAll), Effect::Resize(40)));
    assert!(bar.state.notifications.is_empty());
}

#[test]
fn ipc_messages_update_state() {
    let mut bar = Bar::new(BarConfig::default(), 0);
    bar.handle_app(Message::WorkspaceChanged(6));
    bar.handle_app(Message::ActiveWindowChanged(Some("vim".to_string())));
    bar.handle_app(Message::FullscreenStateChanged(true));
    bar.handle_app(Message::KeyboardLayoutChanged("de".to_string()));
    assert_eq!(bar.state.active_workspace, 6);
    assert_eq!(bar.state.active_window.as_deref(), Some("vim"));
    assert!(bar.state.is_fullscreen);
    assert_eq!(bar.state.keyboard_layout, "de");
    assert!(matches!(bar.handle_app(Message::Tick), Effect::Nothing));
    bar.tick(1234);
    assert_eq!(bar.state.time, 1234);
}

#[test]
fn user_actions_run_commands() {
    let mut bar = Bar::new(BarConfig::default(), 0);
    assert_eq!(
        argv(bar.handle_app(Message::VolumeAdjust(5))),
        vec!["wpctl", "set-volume", "-l", "1.5", "@DEFAULT_AUDIO_SINK@", "5%+"]
    );
    assert_eq!(
        argv(bar.handle_app(Message::VolumeAdjust(-5))),
        vec!["wpctl", "set-volume", "-l", "1.5", "@DEFAULT_AUDIO_SINK@", "5%-"]
    );
    assert_eq!(
        argv(bar.handle_app(Message::BrightnessAdjust(-10))),
        vec!["brightnessctl", "set", "10%-"]
    );
    assert_eq!(
        argv(bar.handle_app(Message::WorkspaceSwitchRequested(12))),
        vec!["hyprctl", "dispatch", "workspace", "12"]
    );
    assert_eq!(
        argv(bar.handle_app(Message::KeyboardLayoutPrev)),
        vec!["hyprctl", "switchxkblayout", "all", "prev"]
    );
    assert_eq!(argv(bar.handle_app(Message::MediaPrev)), vec!["playerctl", "previous"]);
    assert!(matches!(bar.handle_app(Message::ConfigReloaded), Effect::ReloadConfig));
}

#[test]
fn structural_change_keeps_geometry() {
    let mut bar = Bar::new(BarConfig::default(), 0);
    let mut cfg = BarConfig::default();
    cfg.global.height = 60;
    cfg.theme.accent = "#112233".to_string();
    assert_eq!(bar.apply_config(cfg), ConfigOutcome::RestartRequired);
    assert_eq!(bar.config.global.height, 40);
    assert_eq!(bar.theme.accent.r, 0x11);
    assert!(matches!(bar.handle_app(Message::NotifyPanelToggle), Effect::Resize(340)));
}

#[test]
fn live_change_applies_theme() {
    let mut bar = Bar::new(BarConfig::default(), 0);
    let mut cfg = BarConfig::default();
    cfg.theme.accent = "#ff0000".to_string();
    cfg.global.exclusive_zone = false;
    assert_eq!(bar.apply_config(cfg), ConfigOutcome::Applied);
    assert_eq!((bar.theme.accent.r, bar.theme.accent.g, bar.theme.accent.b), (255, 0, 0));
    assert!(!bar.config.global.exclusive_zone);
    let mut moved = BarConfig::default();
    moved.global.position = Position::Bottom;
    assert_eq!(bar.apply_config(moved), ConfigOutcome::RestartRequired);
    assert_eq!(bar.config.global.position, Position::Top);
}
