use bar::config::{
    surface_settings, Position,
    signals_change, BarConfig, BarLayout, ConfigWatcher, FsEventKind, Geometry, GlobalConfig,
    SaveStatus, ThemeConfig, WidgetConfig,
};
use bar::editor::{extract_json_string, is_valid_hex, toggle_network_show, Side};
use bar::theme::{Color, Theme};

#[test]
fn hex_colours() {
    assert_eq!(Color::from_hex("#1e1e2e"), Some(Color { r: 0x1e, g: 0x1e, b: 0x2e, a: 255 }));
    assert_eq!(Color::from_hex("##FF000080"), Some(Color { r: 255, g: 0, b: 0, a: 0x80 }));
    assert_eq!(Color::from_hex("+f+f+f"), Some(Color { r: 15, g: 15, b: 15, a: 255 }));
    assert_eq!(Color::from_hex("#12345"), None);
    assert_eq!(Color::from_hex("#12345g"), None);
    assert_eq!(Color::from_hex("#ééé"), None);
    assert!(is_valid_hex("#cba6f7"));
    assert!(!is_valid_hex("purple"));
    assert_eq!(Color::dark().with_alpha(7).a, 7);
}

#[test]
fn theme_falls_back_on_bad_colours() {
    let mut cfg = ThemeConfig::default();
    cfg.background = "nope".to_string();
    cfg.widget_bg = "#000000".to_string();
    cfg.workspace_style = "dots".to_string();
    let t = Theme::from_config(&cfg);
    assert_eq!(t.background, Color::dark());
    assert_eq!(t.foreground, Color::white());
    assert_eq!(t.widget_bg, Some(Color { r: 0, g: 0, b: 0, a: 255 }));
    assert!(t.workspace_dots);
    assert!(t.use_nerd_icons);
    assert!(t.network_show_speed && !t.network_show_name);
    assert_eq!(Theme::from_config(&ThemeConfig::default()).widget_bg, None);
}

#[test]
fn layout_lists_kinds() {
    let mut cfg = BarConfig::default();
    cfg.left.push(WidgetConfig::new("title"));
    let l = BarLayout::from_config(&cfg);
    assert_eq!(l.left, vec!["workspaces", "title"]);
    assert_eq!(l.center, vec!["clock"]);
    assert_eq!(l.right, vec!["cpu", "memory"]);
}

#[test]
fn save_moves_geometry_only_after_structural_save() {
    let mut g = GlobalConfig::default();
    let mut launched = Geometry::capture(&g);
    assert_eq!(launched.after_save(&g, true), SaveStatus::Saved);
    g.height = 50;
    assert!(launched.differs(&g));
    assert_eq!(launched.after_save(&g, false), SaveStatus::Failed);
    assert_eq!(launched.height, 40);
    assert_eq!(launched.after_save(&g, true), SaveStatus::Restarting);
    assert_eq!(launched.height, 50);
}

#[test]
fn watcher_and_change_kinds() {
    let w = ConfigWatcher::new("/home/u/.config/bar/bar.toml");
    assert_eq!(w.path(), "/home/u/.config/bar/bar.toml");
    assert!(signals_change(FsEventKind::Modify));
    assert!(signals_change(FsEventKind::Create));
    assert!(!signals_change(FsEventKind::Access));
}

#[test]
fn editor_helpers() {
    assert_eq!(Side::Left.index(), 0);
    assert_eq!(Side::Right.index(), 2);
    let cfg = BarConfig::default();
    assert_eq!(Side::Right.widgets(&cfg).len(), 2);
    assert_eq!(Side::Center.widgets(&cfg)[0].kind, "clock");
    let json = r##"{"special": {"background" : "#101010", "foreground":"#eeeeee"}, "colors": {"color1": "#ff0000"}}"##;
    assert_eq!(extract_json_string(json, "background"), Some("#101010".to_string()));
    assert_eq!(extract_json_string(json, "foreground"), Some("#eeeeee".to_string()));
    assert_eq!(extract_json_string(json, "color1"), Some("#ff0000".to_string()));
    assert_eq!(extract_json_string(json, "color2"), None);
    assert_eq!(extract_json_string(r#""k" 5"#, "k"), None);
    let mut f = "speed, name,,".to_string();
    toggle_network_show(&mut f, "signal", true);
    assert_eq!(f, "speed,name,signal");
    toggle_network_show(&mut f, "speed", false);
    assert_eq!(f, "name,signal");
    toggle_network_show(&mut f, "name", true);
    assert_eq!(f, "signal,name");
}

#[test]
fn surface_placement_follows_edge() {
    let mut g = GlobalConfig::default();
    g.margin = 6;
    g.margin_top = 4;
    let s = surface_settings(&g);
    assert_eq!((s.height, s.exclusive_zone), (40, 44));
    assert_eq!((s.margin_top, s.margin_bottom, s.margin_left, s.margin_right), (4, 0, 6, 6));
    g.position = Position::Bottom;
    g.exclusive_zone = false;
    let s = surface_settings(&g);
    assert_eq!(s.edge, Position::Bottom);
    assert_eq!((s.exclusive_zone, s.margin_top, s.margin_bottom), (0, 0, 4));
    g.exclusive_zone = true;
    g.height = u32::MAX;
    g.margin_top = 2;
    assert_eq!(surface_settings(&g).exclusive_zone, 1);
}
