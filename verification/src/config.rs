//! The settings record and the store that owns its in-memory copy.

use crate::text::same_text;
use vstd::prelude::*;
use vstd::string::*;

verus! {

/// The colour scheme that the hosted content is asked to use.
#[derive(Clone, Copy, Debug, PartialEq, Eq, Structural)]
pub enum Theme {
    Light,
    Dark,
    System,
}

impl Theme {
    /// The name under which a theme is written in a settings record.
    pub open spec fn spec_name(self) -> Seq<char> {
        match self {
            Theme::Light => "light"@,
            Theme::Dark => "dark"@,
            Theme::System => "system"@,
        }
    }

    /// The theme that a name stands for, if any.
    pub open spec fn spec_from_name(name: Seq<char>) -> Option<Theme> {
        if name == "light"@ {
            Some(Theme::Light)
        } else if name == "dark"@ {
            Some(Theme::Dark)
        } else if name == "system"@ {
            Some(Theme::System)
        } else {
            None
        }
    }

    /// The name of this theme.
    pub fn name(&self) -> (name: &'static str)
        ensures
            name@ == self.spec_name(),
    {
        match self {
            Theme::Light => "light",
            Theme::Dark => "dark",
            Theme::System => "system",
        }
    }

    /// Reads a theme from its name; any other text is no theme.
    pub fn from_name(name: &str) -> (theme: Option<Theme>)
        ensures
            theme == Theme::spec_from_name(name@),
    {
        if same_text(name, "light") {
            Some(Theme::Light)
        } else if same_text(name, "dark") {
            Some(Theme::Dark)
        } else if same_text(name, "system") {
            Some(Theme::System)
        } else {
            None
        }
    }

    /// A theme is read back from its own name.
    pub proof fn lemma_name_round_trip(self)
        ensures
            Theme::spec_from_name(self.spec_name()) == Some(self),
    {
        reveal_strlit("light");
        reveal_strlit("dark");
        reveal_strlit("system");
        assert("light"@.len() == 5);
        assert("dark"@.len() == 4);
        assert("system"@.len() == 6);
    }
}

/// A length in logical pixels, kept as the bit pattern of the
/// double-precision number that the windowing system works with. The
/// controller never computes with lengths; it stores them and hands them on.
#[derive(Clone, Copy, Debug, PartialEq, Eq, Structural)]
pub struct Length {
    pub bits: u64,
}

/// 1400 logical pixels.
pub const DEFAULT_WIDTH_BITS: u64 = 0x4095_E000_0000_0000;

/// 900 logical pixels.
pub const DEFAULT_HEIGHT_BITS: u64 = 0x408C_2000_0000_0000;

/// The settings record.
#[derive(Debug, PartialEq, Eq)]
pub struct AppConfig {
    pub server_url: String,
    pub window_width: Length,
    pub window_height: Length,
    pub auto_start: bool,
    pub theme: Theme,
}

/// What a settings record holds.
pub struct AppConfigView {
    pub server_url: Seq<char>,
    pub window_width: Length,
    pub window_height: Length,
    pub auto_start: bool,
    pub theme: Theme,
}

impl View for AppConfig {
    type V = AppConfigView;

    open spec fn view(&self) -> AppConfigView {
        AppConfigView {
            server_url: self.server_url@,
            window_width: self.window_width,
            window_height: self.window_height,
            auto_start: self.auto_start,
            theme: self.theme,
        }
    }
}

/// The record that a first start works with.
pub open spec fn default_config() -> AppConfigView {
    AppConfigView {
        server_url: "http://localhost:5000"@,
        window_width: Length { bits: DEFAULT_WIDTH_BITS },
        window_height: Length { bits: DEFAULT_HEIGHT_BITS },
        auto_start: false,
        theme: Theme::System,
    }
}

impl Default for AppConfig {
    fn default() -> (config: AppConfig)
        ensures
            config@ == default_config(),
    {
        AppConfig {
            server_url: "http://localhost:5000".to_owned(),
            window_width: Length { bits: DEFAULT_WIDTH_BITS },
            window_height: Length { bits: DEFAULT_HEIGHT_BITS },
            auto_start: false,
            theme: Theme::System,
        }
    }
}

impl Clone for AppConfig {
    fn clone(&self) -> (copy: AppConfig)
        ensures
            copy@ == self@,
    {
        AppConfig {
            server_url: self.server_url.clone(),
            window_width: self.window_width,
            window_height: self.window_height,
            auto_start: self.auto_start,
            theme: self.theme,
        }
    }
}

/// What a load yields: the copy in memory if there is one, else the record
/// read from persistent storage, else the default record.
pub open spec fn loaded_config(
    cached: Option<AppConfigView>,
    persisted: Option<AppConfigView>,
) -> AppConfigView {
    match cached {
        Some(config) => config,
        None => match persisted {
            Some(config) => config,
            None => default_config(),
        },
    }
}

/// The owner of the one authoritative copy of the settings in memory.
pub struct ConfigStore {
    current: Option<AppConfig>,
}

impl View for ConfigStore {
    type V = Option<AppConfigView>;

    closed spec fn view(&self) -> Option<AppConfigView> {
        match self.current {
            Some(config) => Some(config@),
            None => None,
        }
    }
}

impl ConfigStore {
    /// A store that has not loaded anything yet.
    pub fn new() -> (store: ConfigStore)
        ensures
            store@ is None,
    {
        ConfigStore { current: None }
    }

    /// Whether a copy is held in memory, so that a load reads no storage.
    pub fn is_loaded(&self) -> (loaded: bool)
        ensures
            loaded == (self@ is Some),
    {
        self.current.is_some()
    }

    /// A copy of the record that is held in memory, if one is.
    pub fn current(&self) -> (config: Option<AppConfig>)
        ensures
            match config {
                Some(c) => self@ == Some(c@),
                None => self@ is None,
            },
    {
        match &self.current {
            Some(config) => Some(config.clone()),
            None => None,
        }
    }

    /// Returns the settings. `persisted` is what persistent storage holds,
    /// `None` where it is absent or unreadable; it is looked at only while
    /// nothing is held in memory. The result is held in memory afterwards.
    pub fn load(&mut self, persisted: Option<AppConfig>) -> (config: AppConfig)
        ensures
            config@ == loaded_config(
                old(self)@,
                match persisted {
                    Some(p) => Some(p@),
                    None => None,
                },
            ),
            final(self)@ == Some(config@),
    {
        if self.current.is_none() {
            let first = match persisted {
                Some(config) => config,
                None => AppConfig::default(),
            };
            self.current = Some(first);
        }
        match &self.current {
            Some(config) => config.clone(),
            None => AppConfig::default(),
        }
    }

    /// Replaces the copy in memory by `config`, whole. Whether the record
    /// then reaches persistent storage does not change what is held here.
    pub fn save(&mut self, config: AppConfig)
        ensures
            final(self)@ == Some(config@),
    {
        self.current = Some(config);
    }
}

/// A load that follows a save returns the saved record, whatever persistent
/// storage holds or has become of the write.
pub proof fn lemma_load_after_save(saved: AppConfigView, persisted: Option<AppConfigView>)
    ensures
        loaded_config(Some(saved), persisted) == saved,
{
}

} // verus!
