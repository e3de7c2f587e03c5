use app_shell::config::{AppConfig, Length, Theme};
use app_shell::effect::{Effect, Outcome, ShellEvent};
use app_shell::envelope::{ShellError, SystemInfo};
use app_shell::shell::Shell;
use app_shell::window::WindowTarget;

fn machine() -> SystemInfo {
    SystemInfo {
        platform: "linux".to_string(),
        arch: "x86_64".to_string(),
        family: "unix".to_string(),
    }
}

fn started() -> Shell {
    Shell::new(machine(), None)
}

fn tray(id: &str) -> ShellEvent {
    ShellEvent::TrayMenuSelect { id: id.to_string() }
}

fn menu(id: &str, window: &str) -> ShellEvent {
    ShellEvent::MenuSelect { id: id.to_string(), window: window.to_string() }
}

fn close(window: &str) -> ShellEvent {
    ShellEvent::WindowCloseRequested { window: window.to_string() }
}

fn show_main() -> Vec<Effect> {
    vec![
        Effect::ShowWindow { window: "main".to_string() },
        Effect::FocusWindow { window: "main".to_string() },
    ]
}

fn hide_main() -> Vec<Effect> {
    vec![Effect::HideWindow { window: "main".to_string() }]
}

fn exit() -> Vec<Effect> {
    vec![Effect::Exit { code: 0 }]
}

#[test]
fn a_new_shell_has_the_main_window_on_screen() {
    let shell = started();
    assert_eq!(shell.window_count(), 1);
    assert!(shell.has_window("main"));
    assert_eq!(shell.is_window_visible("main"), Some(true));
    let main = shell.window("main").unwrap();
    assert_eq!(main.id, "main");
    assert_eq!(main.title, "MadEasy Browser");
    assert_eq!(main.target, WindowTarget::App("index.html".to_string()));
    assert_eq!(f64::from_bits(main.size.width.bits), 1400.0);
    assert_eq!(f64::from_bits(main.size.height.bits), 900.0);
    assert_eq!(f64::from_bits(main.min_size.width.bits), 800.0);
    assert_eq!(f64::from_bits(main.min_size.height.bits), 600.0);
}

#[test]
fn the_main_window_takes_its_extent_from_the_settings() {
    let persisted = AppConfig {
        server_url: "http://localhost:5000".to_string(),
        window_width: Length { bits: 1000.0f64.to_bits() },
        window_height: Length { bits: 700.0f64.to_bits() },
        auto_start: false,
        theme: Theme::Light,
    };
    let shell = Shell::new(machine(), Some(persisted));
    let main = shell.window("main").unwrap();
    assert_eq!(f64::from_bits(main.size.width.bits), 1000.0);
    assert_eq!(f64::from_bits(main.size.height.bits), 700.0);
}

#[test]
fn setup_opens_and_titles_the_main_window() {
    let shell = started();
    let effects = shell.setup_app();
    assert_eq!(
        effects,
        vec![
            Effect::OpenWindow { handle: shell.window("main").unwrap() },
            Effect::SetTitle {
                window: "main".to_string(),
                title: "MadEasy Browser".to_string()
            },
        ]
    );
}

#[test]
fn a_failure_during_setup_is_a_setup_error() {
    assert_eq!(Shell::setup_outcome(&Outcome::Done), Ok(()));
    assert_eq!(Shell::setup_outcome(&Outcome::Text("ready".to_string())), Ok(()));
    assert_eq!(
        Shell::setup_outcome(&Outcome::Failed("no display".to_string())),
        Err(ShellError::Setup("no display".to_string()))
    );
}

#[test]
fn tray_left_click_shows_and_focuses_main() {
    let mut shell = started();
    shell.route_at(&tray("hide"), 0);
    let effects = shell.route_at(&ShellEvent::TrayLeftClick, 0);
    assert_eq!(effects, show_main());
    assert_eq!(shell.is_window_visible("main"), Some(true));
}

#[test]
fn tray_show_shows_and_focuses_main() {
    let mut shell = started();
    shell.route_at(&tray("hide"), 0);
    assert_eq!(shell.route_at(&tray("show"), 0), show_main());
    assert_eq!(shell.is_window_visible("main"), Some(true));
}

#[test]
fn tray_hide_hides_main_and_keeps_running() {
    let mut shell = started();
    let effects = shell.route_at(&tray("hide"), 0);
    assert_eq!(effects, hide_main());
    assert!(!effects.contains(&Effect::Exit { code: 0 }));
    assert_eq!(shell.window_count(), 1);
    assert!(shell.has_window("main"));
    assert_eq!(shell.is_window_visible("main"), Some(false));
}

#[test]
fn tray_quit_exits_with_code_zero() {
    let mut shell = started();
    assert_eq!(shell.route_at(&tray("quit"), 0), exit());
    assert_eq!(shell.window_count(), 1);
}

#[test]
fn tray_new_window_opens_the_default_content() {
    let mut shell = started();
    let effects = shell.route_at(&tray("new_window"), 1700000000);
    assert_eq!(effects.len(), 1);
    match &effects[0] {
        Effect::OpenWindow { handle } => {
            assert_eq!(handle.id, "window_1700000000");
            assert_eq!(handle.title, "MadEasy Browser");
            assert_eq!(handle.target, WindowTarget::App("index.html".to_string()));
            assert_eq!(f64::from_bits(handle.size.width.bits), 1200.0);
            assert_eq!(f64::from_bits(handle.size.height.bits), 800.0);
            assert_eq!(f64::from_bits(handle.min_size.width.bits), 800.0);
            assert_eq!(f64::from_bits(handle.min_size.height.bits), 600.0);
        }
        other => panic!("unexpected effect {:?}", other),
    }
    assert_eq!(shell.window_count(), 2);
    assert_eq!(shell.is_window_visible("window_1700000000"), Some(true));
}

#[test]
fn unknown_tray_items_do_nothing() {
    let mut shell = started();
    assert_eq!(shell.route_at(&tray("about"), 0), vec![]);
    assert_eq!(shell.route_at(&tray(""), 0), vec![]);
    assert_eq!(shell.window_count(), 1);
    assert_eq!(shell.is_window_visible("main"), Some(true));
}

#[test]
fn tray_handler_ignores_other_events() {
    let mut shell = started();
    assert_eq!(shell.handle_system_tray_event(&menu("quit", "main"), 0), vec![]);
    assert_eq!(shell.handle_system_tray_event(&close("main"), 0), vec![]);
    assert_eq!(shell.is_window_visible("main"), Some(true));
}

#[test]
fn menu_handler_ignores_other_events() {
    let mut shell = started();
    assert_eq!(shell.handle_menu_event(&tray("quit"), 0), vec![]);
    assert_eq!(shell.handle_menu_event(&ShellEvent::TrayLeftClick, 0), vec![]);
}

#[test]
fn menu_quit_exits_with_code_zero() {
    let mut shell = started();
    assert_eq!(shell.route_at(&menu("quit", "main"), 0), exit());
}

#[test]
fn menu_about_shows_the_fixed_notice() {
    let mut shell = started();
    assert_eq!(
        shell.route_at(&menu("about", "main"), 0),
        vec![Effect::Notify {
            identifier: "com.madeasy.browser".to_string(),
            title: "About MadEasy Browser".to_string(),
            body: "MadEasy Browser v3.0.0\nBuilt with Tauri and Rust".to_string(),
        }]
    );
}

#[test]
fn menu_settings_goes_to_hosted_content() {
    let mut shell = started();
    assert_eq!(shell.route_at(&menu("settings", "main"), 0), vec![Effect::OpenSettings]);
    assert_eq!(shell.window_count(), 1);
}

#[test]
fn menu_new_window_opens_a_window() {
    let mut shell = started();
    let effects = shell.route_at(&menu("new_window", "main"), 50);
    assert_eq!(effects, vec![Effect::OpenWindow { handle: shell.window("window_50").unwrap() }]);
    assert_eq!(shell.window_count(), 2);
}

#[test]
fn menu_close_closes_the_owning_window() {
    let mut shell = started();
    shell.route_at(&tray("new_window"), 50);
    let effects = shell.route_at(&menu("close", "window_50"), 60);
    assert_eq!(effects, vec![Effect::CloseWindow { window: "window_50".to_string() }]);
    assert_eq!(shell.window_count(), 1);
    assert!(!shell.has_window("window_50"));
}

#[test]
fn menu_close_on_main_hides_it() {
    let mut shell = started();
    assert_eq!(shell.route_at(&menu("close", "main"), 0), hide_main());
    assert_eq!(shell.window_count(), 1);
    assert_eq!(shell.is_window_visible("main"), Some(false));
}

#[test]
fn unknown_menu_items_do_nothing() {
    let mut shell = started();
    assert_eq!(shell.route_at(&menu("show", "main"), 0), vec![]);
    assert_eq!(shell.route_at(&menu("print", "main"), 0), vec![]);
}

#[test]
fn closing_main_hides_it_and_prevents_the_close() {
    let mut shell = started();
    let effects = shell.route_at(&close("main"), 0);
    assert_eq!(
        effects,
        vec![
            Effect::HideWindow { window: "main".to_string() },
            Effect::PreventClose { window: "main".to_string() },
        ]
    );
    assert_eq!(shell.window_count(), 1);
    assert!(shell.has_window("main"));
    assert_eq!(shell.is_window_visible("main"), Some(false));
}

#[test]
fn closing_main_twice_leaves_one_hidden_main() {
    let mut shell = started();
    let first = shell.route_at(&close("main"), 0);
    let second = shell.route_at(&close("main"), 1);
    assert_eq!(first, second);
    assert_eq!(shell.window_count(), 1);
    assert_eq!(shell.is_window_visible("main"), Some(false));
}

#[test]
fn closing_main_keeps_other_windows() {
    let mut shell = started();
    shell.route_at(&tray("new_window"), 7);
    shell.route_at(&close("main"), 8);
    assert_eq!(shell.window_count(), 2);
    assert_eq!(shell.is_window_visible("window_7"), Some(true));
}

#[test]
fn closing_another_window_ends_it() {
    let mut shell = started();
    shell.route_at(&tray("new_window"), 7);
    let effects = shell.route_at(&close("window_7"), 8);
    assert_eq!(effects, vec![Effect::CloseWindow { window: "window_7".to_string() }]);
    assert_eq!(shell.window_count(), 1);
    assert!(shell.has_window("main"));
}

#[test]
fn closing_an_unknown_window_does_nothing() {
    let mut shell = started();
    assert_eq!(shell.route_at(&close("ghost"), 0), vec![]);
    assert_eq!(shell.handle_close_requested("ghost"), vec![]);
    assert_eq!(shell.window_count(), 1);
}

#[test]
fn windows_opened_in_one_second_get_different_ids() {
    let mut shell = started();
    let mut ids: Vec<String> = Vec::new();
    for _ in 0..5 {
        for effect in shell.route_at(&tray("new_window"), 1700000000) {
            if let Effect::OpenWindow { handle } = effect {
                assert!(!ids.contains(&handle.id));
                assert_ne!(handle.id, "main");
                ids.push(handle.id);
            }
        }
    }
    assert_eq!(ids.len(), 5);
    assert_eq!(shell.window_count(), 6);
}

#[test]
fn route_reads_the_clock_for_new_windows() {
    let mut shell = started();
    let effects = shell.route(&tray("new_window"));
    assert_eq!(effects.len(), 1);
    match &effects[0] {
        Effect::OpenWindow { handle } => {
            let stamp: u64 = handle.id.strip_prefix("window_").unwrap().parse().unwrap();
            assert!(stamp > 1_600_000_000);
            assert!(shell.has_window(&handle.id));
        }
        other => panic!("unexpected effect {:?}", other),
    }
}

#[test]
fn route_handles_every_kind_of_event() {
    let mut shell = started();
    assert_eq!(shell.route(&close("main")).len(), 2);
    assert_eq!(shell.route(&ShellEvent::TrayLeftClick), show_main());
    assert_eq!(shell.route(&tray("quit")), exit());
    assert_eq!(shell.route(&menu("settings", "main")), vec![Effect::OpenSettings]);
}

#[test]
fn the_tray_outlives_every_window_on_screen() {
    let mut shell = started();
    shell.route_at(&tray("new_window"), 7);
    assert_eq!(shell.visible_window_count(), 2);
    shell.route_at(&close("main"), 8);
    shell.route_at(&close("window_7"), 9);
    assert_eq!(shell.visible_window_count(), 0);
    assert_eq!(shell.window_ids(), vec!["main"]);
    assert_eq!(shell.route_at(&ShellEvent::TrayLeftClick, 10), show_main());
    assert_eq!(shell.visible_window_count(), 1);
}

#[test]
fn only_new_window_selections_open_a_window() {
    assert!(tray("new_window").opens_window());
    assert!(menu("new_window", "main").opens_window());
    assert!(!tray("quit").opens_window());
    assert!(!tray("show").opens_window());
    assert!(!menu("close", "main").opens_window());
    assert!(!menu("about", "new_window").opens_window());
    assert!(!close("new_window").opens_window());
    assert!(!ShellEvent::TrayLeftClick.opens_window());
}

#[test]
fn route_needs_no_clock_for_other_events() {
    let mut by_clock = started();
    let mut at_zero = started();
    let events = [
        close("main"),
        ShellEvent::TrayLeftClick,
        tray("hide"),
        menu("close", "main"),
        menu("about", "main"),
        tray("unknown"),
    ];
    for event in events {
        assert_eq!(by_clock.route(&event), at_zero.route_at(&event, 0));
        assert_eq!(by_clock.is_window_visible("main"), at_zero.is_window_visible("main"));
    }
}

#[test]
fn other_window_events_change_nothing() {
    let mut shell = started();
    shell.route_at(&tray("new_window"), 7);
    shell.route_at(&tray("hide"), 8);
    for window in ["main", "window_7", "ghost"] {
        let event = ShellEvent::WindowOther { window: window.to_string() };
        assert_eq!(shell.route_at(&event, 9), vec![]);
        assert_eq!(shell.route(&event), vec![]);
        assert_eq!(shell.handle_window_event(&event), vec![]);
        assert!(!event.opens_window());
    }
    assert_eq!(shell.window_ids(), vec!["main", "window_7"]);
    assert_eq!(shell.is_window_visible("main"), Some(false));
    assert_eq!(shell.is_window_visible("window_7"), Some(true));
}

#[test]
fn window_handler_deals_with_close_requests_only() {
    let mut shell = started();
    assert_eq!(shell.handle_window_event(&tray("quit")), vec![]);
    assert_eq!(shell.handle_window_event(&menu("close", "main")), vec![]);
    assert_eq!(shell.is_window_visible("main"), Some(true));
    assert_eq!(
        shell.handle_window_event(&close("main")),
        vec![
            Effect::HideWindow { window: "main".to_string() },
            Effect::PreventClose { window: "main".to_string() },
        ]
    );
    assert_eq!(shell.is_window_visible("main"), Some(false));
}

#[test]
fn a_new_window_is_owed_whatever_the_clock_shows() {
    for now in [i64::MIN, -1, 0, 1700000000, i64::MAX] {
        let mut shell = started();
        let effects = shell.route_at(&tray("new_window"), now);
        assert_eq!(effects.len(), 1);
        assert!(matches!(effects[0], Effect::OpenWindow { .. }));
        assert_eq!(shell.window_count(), 2);
    }
}
