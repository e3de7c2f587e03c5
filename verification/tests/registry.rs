use app_shell::config::Length;
use app_shell::envelope::ShellError;
use app_shell::window::{
    window_label_text, Size, WindowHandle, WindowRegistry, WindowTarget, STAMP_LIMIT,
};

fn size(width: f64, height: f64) -> Size {
    Size { width: Length { bits: width.to_bits() }, height: Length { bits: height.to_bits() } }
}

fn handle(id: &str) -> WindowHandle {
    WindowHandle {
        id: id.to_string(),
        title: "Title".to_string(),
        target: WindowTarget::App("index.html".to_string()),
        size: size(640.0, 480.0),
        min_size: size(320.0, 240.0),
    }
}

fn create(registry: &mut WindowRegistry, now: i64) -> Result<WindowHandle, ShellError> {
    registry.create(
        "Title".to_string(),
        WindowTarget::External("https://example.org/".to_string()),
        size(1200.0, 800.0),
        size(800.0, 600.0),
        now,
    )
}

#[test]
fn labels_are_window_and_the_stamp() {
    assert_eq!(window_label_text(0), "window_0");
    assert_eq!(window_label_text(1431648000), "window_1431648000");
    assert_eq!(window_label_text(u64::MAX), "window_18446744073709551615");
}

#[test]
fn new_registry_is_empty() {
    let registry = WindowRegistry::new();
    assert_eq!(registry.len(), 0);
    assert!(!registry.contains("main"));
    assert_eq!(registry.is_visible("main"), None);
    assert_eq!(registry.get("main"), None);
}

#[test]
fn register_adds_a_visible_window() {
    let mut registry = WindowRegistry::new();
    assert_eq!(registry.register(handle("main")), Ok(()));
    assert_eq!(registry.len(), 1);
    assert!(registry.contains("main"));
    assert_eq!(registry.is_visible("main"), Some(true));
    assert_eq!(registry.get("main"), Some(handle("main")));
}

#[test]
fn register_refuses_an_id_in_use() {
    let mut registry = WindowRegistry::new();
    registry.register(handle("main")).unwrap();
    assert_eq!(registry.register(handle("main")), Err(ShellError::IdInUse("main".to_string())));
    assert_eq!(registry.len(), 1);
}

#[test]
fn create_stamps_with_the_clock() {
    let mut registry = WindowRegistry::new();
    let made = create(&mut registry, 1700000000).unwrap();
    assert_eq!(made.id, "window_1700000000");
    assert_eq!(made.title, "Title");
    assert_eq!(made.target, WindowTarget::External("https://example.org/".to_string()));
    assert_eq!(made.size, size(1200.0, 800.0));
    assert_eq!(made.min_size, size(800.0, 600.0));
    assert_eq!(registry.len(), 1);
    assert_eq!(registry.is_visible("window_1700000000"), Some(true));
    assert_eq!(registry.get("window_1700000000"), Some(made));
}

#[test]
fn create_in_the_same_second_takes_the_next_stamp() {
    let mut registry = WindowRegistry::new();
    let first = create(&mut registry, 1700000000).unwrap();
    let second = create(&mut registry, 1700000000).unwrap();
    let third = create(&mut registry, 1700000000).unwrap();
    assert_eq!(first.id, "window_1700000000");
    assert_eq!(second.id, "window_1700000001");
    assert_eq!(third.id, "window_1700000002");
    assert_eq!(registry.len(), 3);
}

#[test]
fn create_after_the_clock_was_set_back_stays_fresh() {
    let mut registry = WindowRegistry::new();
    let first = create(&mut registry, 1700000000).unwrap();
    let second = create(&mut registry, 1600000000).unwrap();
    assert_eq!(second.id, "window_1700000001");
    assert_ne!(first.id, second.id);
}

#[test]
fn create_with_a_clock_before_the_epoch_starts_at_zero() {
    let mut registry = WindowRegistry::new();
    assert_eq!(create(&mut registry, -5).unwrap().id, "window_0");
    assert_eq!(create(&mut registry, i64::MIN).unwrap().id, "window_1");
}

#[test]
fn closed_ids_are_not_issued_again() {
    let mut registry = WindowRegistry::new();
    let first = create(&mut registry, 10).unwrap();
    registry.close_window(&first.id).unwrap();
    let second = create(&mut registry, 10).unwrap();
    assert_eq!(second.id, "window_11");
}

#[test]
fn create_refuses_a_label_that_is_live() {
    let mut registry = WindowRegistry::new();
    registry.register(handle("window_42")).unwrap();
    assert_eq!(create(&mut registry, 42), Err(ShellError::IdInUse("window_42".to_string())));
    assert_eq!(registry.len(), 1);
    assert_eq!(create(&mut registry, 43).unwrap().id, "window_43");
}

#[test]
fn create_stops_when_stamps_are_used_up() {
    let mut registry = WindowRegistry::new();
    let last = create(&mut registry, i64::MAX - 1).unwrap();
    assert_eq!(last.id, "window_9223372036854775806");
    assert_eq!(STAMP_LIMIT, 9223372036854775807);
    assert_eq!(create(&mut registry, 0), Err(ShellError::Exhausted));
    assert_eq!(create(&mut registry, i64::MAX), Err(ShellError::Exhausted));
    assert_eq!(registry.len(), 1);
}

#[test]
fn hide_and_show_change_visibility_only() {
    let mut registry = WindowRegistry::new();
    registry.register(handle("main")).unwrap();
    registry.register(handle("other")).unwrap();
    assert_eq!(registry.hide_window("main"), Ok(()));
    assert_eq!(registry.is_visible("main"), Some(false));
    assert_eq!(registry.is_visible("other"), Some(true));
    assert_eq!(registry.len(), 2);
    assert_eq!(registry.get("main"), Some(handle("main")));
    assert_eq!(registry.show_window("main"), Ok(()));
    assert_eq!(registry.is_visible("main"), Some(true));
}

#[test]
fn hide_twice_is_hide_once() {
    let mut registry = WindowRegistry::new();
    registry.register(handle("main")).unwrap();
    registry.hide_window("main").unwrap();
    registry.hide_window("main").unwrap();
    assert_eq!(registry.len(), 1);
    assert_eq!(registry.is_visible("main"), Some(false));
}

#[test]
fn close_removes_the_window() {
    let mut registry = WindowRegistry::new();
    registry.register(handle("a")).unwrap();
    registry.register(handle("b")).unwrap();
    registry.register(handle("c")).unwrap();
    assert_eq!(registry.close_window("b"), Ok(()));
    assert_eq!(registry.len(), 2);
    assert!(registry.contains("a"));
    assert!(!registry.contains("b"));
    assert!(registry.contains("c"));
}

#[test]
fn unknown_ids_are_not_found() {
    let mut registry = WindowRegistry::new();
    registry.register(handle("main")).unwrap();
    let missing = || Err(ShellError::NotFound("ghost".to_string()));
    assert_eq!(registry.show_window("ghost"), missing());
    assert_eq!(registry.hide_window("ghost"), missing());
    assert_eq!(registry.focus_window("ghost"), missing());
    assert_eq!(registry.close_window("ghost"), missing());
    assert_eq!(registry.len(), 1);
    assert_eq!(registry.is_visible("main"), Some(true));
}

#[test]
fn focus_accepts_a_live_window() {
    let mut registry = WindowRegistry::new();
    registry.register(handle("main")).unwrap();
    assert_eq!(registry.focus_window("main"), Ok(()));
}

#[test]
fn ids_are_listed_in_order_of_arrival() {
    let mut registry = WindowRegistry::new();
    assert_eq!(registry.ids(), Vec::<String>::new());
    registry.register(handle("main")).unwrap();
    create(&mut registry, 3).unwrap();
    create(&mut registry, 1).unwrap();
    assert_eq!(registry.ids(), vec!["main", "window_3", "window_4"]);
    registry.close_window("window_3").unwrap();
    assert_eq!(registry.ids(), vec!["main", "window_4"]);
}

#[test]
fn visible_count_counts_windows_on_screen() {
    let mut registry = WindowRegistry::new();
    assert_eq!(registry.visible_count(), 0);
    registry.register(handle("main")).unwrap();
    registry.register(handle("a")).unwrap();
    registry.register(handle("b")).unwrap();
    assert_eq!(registry.visible_count(), 3);
    registry.hide_window("a").unwrap();
    assert_eq!(registry.visible_count(), 2);
    registry.hide_window("a").unwrap();
    registry.hide_window("main").unwrap();
    assert_eq!(registry.visible_count(), 1);
    registry.close_window("b").unwrap();
    assert_eq!(registry.visible_count(), 0);
    assert_eq!(registry.len(), 2);
    registry.show_window("main").unwrap();
    assert_eq!(registry.visible_count(), 1);
}

#[test]
fn a_reading_at_the_limit_takes_the_next_stamp() {
    let mut registry = WindowRegistry::new();
    assert_eq!(create(&mut registry, i64::MAX).unwrap().id, "window_0");
    assert_eq!(create(&mut registry, i64::MAX).unwrap().id, "window_1");
    assert_eq!(create(&mut registry, i64::MAX - 1).unwrap().id, "window_9223372036854775806");
    assert_eq!(create(&mut registry, 5), Err(ShellError::Exhausted));
}

#[test]
fn no_clock_reading_uses_up_the_stamps() {
    for now in [i64::MIN, -1, 0, 1, 1700000000, i64::MAX - 1, i64::MAX] {
        let mut registry = WindowRegistry::new();
        assert!(create(&mut registry, now).is_ok());
    }
}
