use app_shell::config::{
    AppConfig, ConfigStore, Length, Theme, DEFAULT_HEIGHT_BITS, DEFAULT_WIDTH_BITS,
};

fn sample() -> AppConfig {
    AppConfig {
        server_url: "https://example.org:8443".to_string(),
        window_width: Length { bits: 1024.5f64.to_bits() },
        window_height: Length { bits: 768.0f64.to_bits() },
        auto_start: true,
        theme: Theme::Dark,
    }
}

#[test]
fn default_config_has_documented_values() {
    let config = AppConfig::default();
    assert_eq!(config.server_url, "http://localhost:5000");
    assert_eq!(f64::from_bits(config.window_width.bits), 1400.0);
    assert_eq!(f64::from_bits(config.window_height.bits), 900.0);
    assert!(!config.auto_start);
    assert_eq!(config.theme, Theme::System);
}

#[test]
fn default_length_constants_are_bit_patterns() {
    assert_eq!(DEFAULT_WIDTH_BITS, 1400.0f64.to_bits());
    assert_eq!(DEFAULT_HEIGHT_BITS, 900.0f64.to_bits());
}

#[test]
fn clone_keeps_every_field() {
    let config = sample();
    assert_eq!(config.clone(), config);
}

#[test]
fn theme_names_round_trip() {
    for theme in [Theme::Light, Theme::Dark, Theme::System] {
        assert_eq!(Theme::from_name(theme.name()), Some(theme));
    }
    assert_eq!(Theme::Light.name(), "light");
    assert_eq!(Theme::Dark.name(), "dark");
    assert_eq!(Theme::System.name(), "system");
}

#[test]
fn theme_rejects_other_names() {
    assert_eq!(Theme::from_name("Dark"), None);
    assert_eq!(Theme::from_name(""), None);
    assert_eq!(Theme::from_name("solarized"), None);
}

#[test]
fn store_starts_unloaded() {
    let store = ConfigStore::new();
    assert!(!store.is_loaded());
    assert_eq!(store.current(), None);
}

#[test]
fn load_falls_back_to_default_when_storage_is_absent() {
    let mut store = ConfigStore::new();
    assert_eq!(store.load(None), AppConfig::default());
    assert!(store.is_loaded());
}

#[test]
fn load_takes_the_persisted_record_first_time() {
    let mut store = ConfigStore::new();
    assert_eq!(store.load(Some(sample())), sample());
    assert_eq!(store.current(), Some(sample()));
}

#[test]
fn load_prefers_the_copy_in_memory() {
    let mut store = ConfigStore::new();
    store.load(None);
    assert_eq!(store.load(Some(sample())), AppConfig::default());
}

#[test]
fn save_replaces_the_whole_record() {
    let mut store = ConfigStore::new();
    store.load(None);
    store.save(sample());
    assert_eq!(store.load(None), sample());
    assert_eq!(store.load(Some(AppConfig::default())), sample());
}

#[test]
fn save_before_any_load_is_seen_by_load() {
    let mut store = ConfigStore::new();
    store.save(sample());
    assert!(store.is_loaded());
    assert_eq!(store.load(Some(AppConfig::default())), sample());
}
