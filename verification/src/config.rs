//! The settings file's model: its defaults, the keys that `config set`
//! accepts and how each value is checked, and the gaps that a loaded file
//! gets filled with.
use std::path::PathBuf;

use vstd::prelude::*;
use vstd::string::*;

use crate::domain::{normalized_qari, QariId};
use crate::text::{append_str, parse_u64, parse_u64_spec, str_eq, string_of, trim, trim_str};

verus! {

/// Where the application keeps its files.
#[derive(Debug)]
pub struct AppPaths {
    pub home: PathBuf,
    pub config_path: PathBuf,
    pub db_path: PathBuf,
    pub notice_path: PathBuf,
}

#[derive(Debug, Clone)]
pub struct SyncConfig {
    pub enabled: bool,
    pub interval_hours: u64,
}

#[derive(Debug, Clone)]
pub struct AudioConfig {
    pub default_qari: String,
    pub cache_enabled: bool,
    pub cache_max_mb: u64,
}

#[derive(Debug, Clone)]
pub struct UiConfig {
    pub theme: String,
    pub output: String,
    pub keymap: String,
}

/// The settings of the application.
#[derive(Debug, Clone)]
pub struct AppConfig {
    pub default_lang: String,
    pub theme: String,
    pub show_translation: bool,
    pub sync: SyncConfig,
    pub audio: AudioConfig,
    pub ui: UiConfig,
}

/// The settings as the contracts see them, one field per key.
pub struct AppConfigView {
    pub default_lang: Seq<char>,
    pub theme: Seq<char>,
    pub show_translation: bool,
    pub sync_enabled: bool,
    pub sync_interval_hours: u64,
    pub default_qari: Seq<char>,
    pub cache_enabled: bool,
    pub cache_max_mb: u64,
    pub ui_theme: Seq<char>,
    pub ui_output: Seq<char>,
    pub ui_keymap: Seq<char>,
}

impl View for AppConfig {
    type V = AppConfigView;

    open spec fn view(&self) -> AppConfigView {
        AppConfigView {
            default_lang: self.default_lang@,
            theme: self.theme@,
            show_translation: self.show_translation,
            sync_enabled: self.sync.enabled,
            sync_interval_hours: self.sync.interval_hours,
            default_qari: self.audio.default_qari@,
            cache_enabled: self.audio.cache_enabled,
            cache_max_mb: self.audio.cache_max_mb,
            ui_theme: self.ui.theme@,
            ui_output: self.ui.output@,
            ui_keymap: self.ui.keymap@,
        }
    }
}

/// The theme a settings file without one gets.
pub fn default_theme() -> (r: String)
    ensures
        r@ == "auto"@,
{
    string_of("auto")
}

/// Whether translations show when a settings file does not say.
pub fn default_show_translation() -> (r: bool)
    ensures
        r,
{
    true
}

impl Default for AudioConfig {
    fn default() -> (r: Self)
        ensures
            r.default_qari@ == "05"@,
            r.cache_enabled,
            r.cache_max_mb == 512,
    {
        AudioConfig { default_qari: string_of("05"), cache_enabled: true, cache_max_mb: 512 }
    }
}

impl Default for UiConfig {
    fn default() -> (r: Self)
        ensures
            r.theme@ == "auto"@,
            r.output@ == "rich"@,
            r.keymap@ == "modern"@,
    {
        UiConfig {
            theme: string_of("auto"),
            output: string_of("rich"),
            keymap: string_of("modern"),
        }
    }
}

/// The settings of a new installation.
pub open spec fn default_config() -> AppConfigView {
    AppConfigView {
        default_lang: "id"@,
        theme: "auto"@,
        show_translation: true,
        sync_enabled: true,
        sync_interval_hours: 24,
        default_qari: "05"@,
        cache_enabled: true,
        cache_max_mb: 512,
        ui_theme: "auto"@,
        ui_output: "rich"@,
        ui_keymap: "modern"@,
    }
}

impl Default for AppConfig {
    fn default() -> (r: Self)
        ensures
            r@ == default_config(),
    {
        AppConfig {
            default_lang: string_of("id"),
            theme: default_theme(),
            show_translation: default_show_translation(),
            sync: SyncConfig { enabled: true, interval_hours: 24 },
            audio: AudioConfig::default(),
            ui: UiConfig::default(),
        }
    }
}

/// Why a setting was refused.
#[derive(Debug, Clone)]
pub enum ConfigError {
    InvalidBool(String),
    InvalidOutput(String),
    InvalidKeymap(String),
    InvalidQari(String),
    /// The value of the named key is not a whole number.
    InvalidNumber(String),
    UnknownKey(String),
}

pub open spec fn config_error_message(e: ConfigError) -> Seq<char> {
    match e {
        ConfigError::InvalidBool(v) => "Nilai boolean tidak valid: "@ + v@ + ". Gunakan true/false."@,
        ConfigError::InvalidOutput(v) => "Nilai ui.output tidak valid: "@ + v@
            + ". Gunakan rich/plain/json."@,
        ConfigError::InvalidKeymap(v) => "Nilai ui.keymap tidak valid: "@ + v@
            + ". Saat ini hanya modern didukung."@,
        ConfigError::InvalidQari(v) => "Nilai audio.default_qari tidak valid: "@ + v@
            + ". Gunakan 01..06."@,
        ConfigError::InvalidNumber(k) => k@ + " harus angka positif"@,
        ConfigError::UnknownKey(k) => "Key config tidak dikenal: "@ + k@,
    }
}

impl ConfigError {
    /// The human-readable description of the error.
    pub fn message(&self) -> (r: String)
        ensures
            r@ == config_error_message(*self),
    {
        match self {
            ConfigError::InvalidBool(v) => {
                let mut s = string_of("Nilai boolean tidak valid: ");
                append_str(&mut s, v.as_str());
                append_str(&mut s, ". Gunakan true/false.");
                s
            },
            ConfigError::InvalidOutput(v) => {
                let mut s = string_of("Nilai ui.output tidak valid: ");
                append_str(&mut s, v.as_str());
                append_str(&mut s, ". Gunakan rich/plain/json.");
                s
            },
            ConfigError::InvalidKeymap(v) => {
                let mut s = string_of("Nilai ui.keymap tidak valid: ");
                append_str(&mut s, v.as_str());
                append_str(&mut s, ". Saat ini hanya modern didukung.");
                s
            },
            ConfigError::InvalidQari(v) => {
                let mut s = string_of("Nilai audio.default_qari tidak valid: ");
                append_str(&mut s, v.as_str());
                append_str(&mut s, ". Gunakan 01..06.");
                s
            },
            ConfigError::InvalidNumber(k) => {
                let mut s = k.clone();
                append_str(&mut s, " harus angka positif");
                s
            },
            ConfigError::UnknownKey(k) => {
                let mut s = string_of("Key config tidak dikenal: ");
                append_str(&mut s, k.as_str());
                s
            },
        }
    }
}

/// A boolean setting: true/1/yes/on or false/0/no/off.
pub open spec fn bool_value(v: Seq<char>) -> Option<bool> {
    if v == "true"@ || v == "1"@ || v == "yes"@ || v == "on"@ {
        Some(true)
    } else if v == "false"@ || v == "0"@ || v == "no"@ || v == "off"@ {
        Some(false)
    } else {
        None
    }
}

pub fn parse_bool(value: &str) -> (r: Result<bool, ConfigError>)
    ensures
        bool_value(value@) is Some <==> r is Ok,
        r matches Ok(b) ==> bool_value(value@) == Some(b),
        r matches Err(e) ==> (e matches ConfigError::InvalidBool(v) && v@ == value@),
{
    proof {
        reveal_strlit("true");
        reveal_strlit("1");
        reveal_strlit("yes");
        reveal_strlit("on");
        reveal_strlit("false");
        reveal_strlit("0");
        reveal_strlit("no");
        reveal_strlit("off");
    }
    if str_eq(value, "true") || str_eq(value, "1") || str_eq(value, "yes") || str_eq(value, "on") {
        Ok(true)
    } else if str_eq(value, "false") || str_eq(value, "0") || str_eq(value, "no") || str_eq(
        value,
        "off",
    ) {
        Ok(false)
    } else {
        Err(ConfigError::InvalidBool(string_of(value)))
    }
}

/// The output styles: rich, plain, json.
pub open spec fn is_output_style(v: Seq<char>) -> bool {
    v == "rich"@ || v == "plain"@ || v == "json"@
}

pub fn parse_output(value: &str) -> (r: Result<String, ConfigError>)
    ensures
        is_output_style(value@) <==> r is Ok,
        r matches Ok(s) ==> s@ == value@,
        r matches Err(e) ==> (e matches ConfigError::InvalidOutput(v) && v@ == value@),
{
    if str_eq(value, "rich") || str_eq(value, "plain") || str_eq(value, "json") {
        Ok(string_of(value))
    } else {
        Err(ConfigError::InvalidOutput(string_of(value)))
    }
}

/// The one key map there is: modern.
pub fn parse_keymap(value: &str) -> (r: Result<String, ConfigError>)
    ensures
        (value@ == "modern"@) <==> r is Ok,
        r matches Ok(s) ==> s@ == value@,
        r matches Err(e) ==> (e matches ConfigError::InvalidKeymap(v) && v@ == value@),
{
    if str_eq(value, "modern") {
        Ok(string_of(value))
    } else {
        Err(ConfigError::InvalidKeymap(string_of(value)))
    }
}

/// A qari id or one of its aliases, stored as the canonical id.
pub fn parse_qari(value: &str) -> (r: Result<String, ConfigError>)
    ensures
        normalized_qari(value@) is Some <==> r is Ok,
        r matches Ok(s) ==> Some(s@) == normalized_qari(value@),
        r matches Err(e) ==> (e matches ConfigError::InvalidQari(v) && v@ == value@),
{
    match QariId::new(value) {
        Ok(q) => Ok(string_of(q.as_str())),
        Err(_) => Err(ConfigError::InvalidQari(string_of(value))),
    }
}

/// The notice written beside the data about where the content comes from.
pub fn attribution_notice() -> (r: &'static str)
    ensures
        r@ == "Quran content is fetched live from equran.id API v2. Ensure API provider terms and attribution requirements are followed before public release."@,
{
    "Quran content is fetched live from equran.id API v2. Ensure API provider terms and attribution requirements are followed before public release."
}

/// What `config set key value` makes of the settings: the new settings, or
/// the message of the refusal.
pub open spec fn set_key_spec(c: AppConfigView, key: Seq<char>, value: Seq<char>) -> Result<
    AppConfigView,
    Seq<char>,
> {
    if key == "default_lang"@ {
        Ok(AppConfigView { default_lang: value, ..c })
    } else if key == "theme"@ {
        Ok(AppConfigView { theme: value, ui_theme: value, ..c })
    } else if key == "ui.theme"@ {
        Ok(AppConfigView { ui_theme: value, ..c })
    } else if key == "show_translation"@ {
        match bool_value(value) {
            Some(b) => Ok(AppConfigView { show_translation: b, ..c }),
            None => Err(invalid_bool_message(value)),
        }
    } else if key == "ui.output"@ {
        if is_output_style(value) {
            Ok(AppConfigView { ui_output: value, ..c })
        } else {
            Err("Nilai ui.output tidak valid: "@ + value + ". Gunakan rich/plain/json."@)
        }
    } else if key == "ui.keymap"@ {
        if value == "modern"@ {
            Ok(AppConfigView { ui_keymap: value, ..c })
        } else {
            Err("Nilai ui.keymap tidak valid: "@ + value + ". Saat ini hanya modern didukung."@)
        }
    } else if key == "sync.enabled"@ {
        match bool_value(value) {
            Some(b) => Ok(AppConfigView { sync_enabled: b, ..c }),
            None => Err(invalid_bool_message(value)),
        }
    } else if key == "sync.interval_hours"@ {
        match parse_u64_spec(value) {
            Some(n) => Ok(AppConfigView { sync_interval_hours: n, ..c }),
            None => Err("sync.interval_hours"@ + " harus angka positif"@),
        }
    } else if key == "audio.default_qari"@ {
        match normalized_qari(value) {
            Some(q) => Ok(AppConfigView { default_qari: q, ..c }),
            None => Err("Nilai audio.default_qari tidak valid: "@ + value + ". Gunakan 01..06."@),
        }
    } else if key == "audio.cache_enabled"@ {
        match bool_value(value) {
            Some(b) => Ok(AppConfigView { cache_enabled: b, ..c }),
            None => Err(invalid_bool_message(value)),
        }
    } else if key == "audio.cache_max_mb"@ {
        match parse_u64_spec(value) {
            Some(n) => Ok(AppConfigView { cache_max_mb: n, ..c }),
            None => Err("audio.cache_max_mb"@ + " harus angka positif"@),
        }
    } else {
        Err("Key config tidak dikenal: "@ + key)
    }
}

pub open spec fn invalid_bool_message(value: Seq<char>) -> Seq<char> {
    "Nilai boolean tidak valid: "@ + value + ". Gunakan true/false."@
}

impl AppConfig {
    /// Sets one key from its text value. A refused value or an unknown key
    /// leaves the settings as they were.
    pub fn set_key(&mut self, key: &str, value: &str) -> (r: Result<(), ConfigError>)
        ensures
            match set_key_spec(old(self)@, key@, value@) {
                Ok(v) => r is Ok && final(self)@ == v,
                Err(m) => (r matches Err(e) && config_error_message(e) == m) && final(self)@ == old(
                    self,
                )@,
            },
    {
        if str_eq(key, "default_lang") {
            self.default_lang = string_of(value);
        } else if str_eq(key, "theme") {
            self.theme = string_of(value);
            self.ui.theme = string_of(value);
        } else if str_eq(key, "ui.theme") {
            self.ui.theme = string_of(value);
        } else if str_eq(key, "show_translation") {
            match parse_bool(value) {
                Ok(v) => {
                    self.show_translation = v;
                },
                Err(e) => {
                    return Err(e);
                },
            }
        } else if str_eq(key, "ui.output") {
            match parse_output(value) {
                Ok(v) => {
                    self.ui.output = v;
                },
                Err(e) => {
                    return Err(e);
                },
            }
        } else if str_eq(key, "ui.keymap") {
            match parse_keymap(value) {
                Ok(v) => {
                    self.ui.keymap = v;
                },
                Err(e) => {
                    return Err(e);
                },
            }
        } else if str_eq(key, "sync.enabled") {
            match parse_bool(value) {
                Ok(v) => {
                    self.sync.enabled = v;
                },
                Err(e) => {
                    return Err(e);
                },
            }
        } else if str_eq(key, "sync.interval_hours") {
            match parse_u64(value) {
                Some(n) => {
                    self.sync.interval_hours = n;
                },
                None => {
                    return Err(ConfigError::InvalidNumber(string_of("sync.interval_hours")));
                },
            }
        } else if str_eq(key, "audio.default_qari") {
            match parse_qari(value) {
                Ok(v) => {
                    self.audio.default_qari = v;
                },
                Err(e) => {
                    return Err(e);
                },
            }
        } else if str_eq(key, "audio.cache_enabled") {
            match parse_bool(value) {
                Ok(v) => {
                    self.audio.cache_enabled = v;
                },
                Err(e) => {
                    return Err(e);
                },
            }
        } else if str_eq(key, "audio.cache_max_mb") {
            match parse_u64(value) {
                Some(n) => {
                    self.audio.cache_max_mb = n;
                },
                None => {
                    return Err(ConfigError::InvalidNumber(string_of("audio.cache_max_mb")));
                },
            }
        } else {
            return Err(ConfigError::UnknownKey(string_of(key)));
        }
        Ok(())
    }

    /// The theme in use: the UI theme, unless that is blank.
    pub fn ui_theme(&self) -> (r: &str)
        ensures
            r@ == if trim(self.ui.theme@).len() == 0 {
                self.theme@
            } else {
                self.ui.theme@
            },
    {
        if trim_str(self.ui.theme.as_str()).unicode_len() == 0 {
            self.theme.as_str()
        } else {
            self.ui.theme.as_str()
        }
    }

    /// The output style in use: rich, unless another is set.
    pub fn ui_output(&self) -> (r: &str)
        ensures
            r@ == if trim(self.ui.output@).len() == 0 {
                "rich"@
            } else {
                self.ui.output@
            },
    {
        if trim_str(self.ui.output.as_str()).unicode_len() == 0 {
            "rich"
        } else {
            self.ui.output.as_str()
        }
    }
}

/// The gaps of a loaded settings file filled: a blank UI theme takes the
/// theme, blank output and key map take rich and modern, a blank qari takes
/// 05 and a zero cache size 512.
pub open spec fn filled_config(c: AppConfigView) -> AppConfigView {
    AppConfigView {
        ui_theme: if trim(c.ui_theme).len() == 0 {
            c.theme
        } else {
            c.ui_theme
        },
        ui_output: if trim(c.ui_output).len() == 0 {
            "rich"@
        } else {
            c.ui_output
        },
        ui_keymap: if trim(c.ui_keymap).len() == 0 {
            "modern"@
        } else {
            c.ui_keymap
        },
        default_qari: if trim(c.default_qari).len() == 0 {
            "05"@
        } else {
            c.default_qari
        },
        cache_max_mb: if c.cache_max_mb == 0 {
            512
        } else {
            c.cache_max_mb
        },
        ..c
    }
}

/// Fills the gaps of a settings file just read.
pub fn fill_loaded_defaults(cfg: &mut AppConfig)
    ensures
        final(cfg)@ == filled_config(old(cfg)@),
{
    if trim_str(cfg.ui.theme.as_str()).unicode_len() == 0 {
        cfg.ui.theme = cfg.theme.clone();
    }
    if trim_str(cfg.ui.output.as_str()).unicode_len() == 0 {
        cfg.ui.output = string_of("rich");
    }
    if trim_str(cfg.ui.keymap.as_str()).unicode_len() == 0 {
        cfg.ui.keymap = string_of("modern");
    }
    if trim_str(cfg.audio.default_qari.as_str()).unicode_len() == 0 {
        cfg.audio.default_qari = string_of("05");
    }
    if cfg.audio.cache_max_mb == 0 {
        cfg.audio.cache_max_mb = 512;
    }
}

} // verus!
