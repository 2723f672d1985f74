use tada_rust::cli::parse_plan_count;
use tada_rust::config::{
    attribution_notice, default_show_translation, default_theme, fill_loaded_defaults,
    parse_bool, parse_keymap, parse_output, parse_qari, AppConfig, ConfigError,
};
use tada_rust::output::{Output, OutputMode};
use tada_rust::{default_log_filter, log_level};

#[test]
fn default_log_filter_only_enables_app_target() {
    assert_eq!(default_log_filter("info"), "tada_rust=info");
    assert_eq!(default_log_filter("debug"), "tada_rust=debug");
}

#[test]
fn log_level_follows_flags() {
    assert_eq!(log_level(0, false), "info");
    assert_eq!(log_level(1, false), "debug");
    assert_eq!(log_level(2, false), "trace");
    assert_eq!(log_level(0, true), "debug");
    assert_eq!(log_level(3, true), "debug");
}

#[test]
fn config_defaults_match_a_fresh_install() {
    let cfg = AppConfig::default();
    assert_eq!(cfg.default_lang, "id");
    assert_eq!(cfg.theme, "auto");
    assert!(cfg.show_translation);
    assert!(cfg.sync.enabled);
    assert_eq!(cfg.sync.interval_hours, 24);
    assert_eq!(cfg.audio.default_qari, "05");
    assert!(cfg.audio.cache_enabled);
    assert_eq!(cfg.audio.cache_max_mb, 512);
    assert_eq!(cfg.ui.theme, "auto");
    assert_eq!(cfg.ui.output, "rich");
    assert_eq!(cfg.ui.keymap, "modern");
    assert_eq!(default_theme(), "auto");
    assert!(default_show_translation());
}

#[test]
fn set_key_updates_each_known_key() {
    let mut cfg = AppConfig::default();
    cfg.set_key("default_lang", "en").unwrap();
    assert_eq!(cfg.default_lang, "en");
    cfg.set_key("theme", "dark").unwrap();
    assert_eq!((cfg.theme.as_str(), cfg.ui.theme.as_str()), ("dark", "dark"));
    cfg.set_key("ui.theme", "light").unwrap();
    assert_eq!((cfg.theme.as_str(), cfg.ui.theme.as_str()), ("dark", "light"));
    cfg.set_key("show_translation", "off").unwrap();
    assert!(!cfg.show_translation);
    cfg.set_key("ui.output", "json").unwrap();
    assert_eq!(cfg.ui.output, "json");
    cfg.set_key("ui.keymap", "modern").unwrap();
    cfg.set_key("sync.enabled", "0").unwrap();
    assert!(!cfg.sync.enabled);
    cfg.set_key("sync.interval_hours", "12").unwrap();
    assert_eq!(cfg.sync.interval_hours, 12);
    cfg.set_key("audio.default_qari", "3").unwrap();
    assert_eq!(cfg.audio.default_qari, "03");
    cfg.set_key("audio.cache_enabled", "no").unwrap();
    assert!(!cfg.audio.cache_enabled);
    cfg.set_key("audio.cache_max_mb", "1024").unwrap();
    assert_eq!(cfg.audio.cache_max_mb, 1024);
}

#[test]
fn set_key_refuses_bad_values_and_keeps_settings() {
    let mut cfg = AppConfig::default();
    let err = cfg.set_key("sync.enabled", "maybe").unwrap_err();
    assert!(matches!(err, ConfigError::InvalidBool(_)));
    assert_eq!(err.message(), "Nilai boolean tidak valid: maybe. Gunakan true/false.");
    assert!(cfg.sync.enabled);

    let err = cfg.set_key("ui.output", "html").unwrap_err();
    assert_eq!(err.message(), "Nilai ui.output tidak valid: html. Gunakan rich/plain/json.");
    let err = cfg.set_key("ui.keymap", "vim").unwrap_err();
    assert_eq!(err.message(), "Nilai ui.keymap tidak valid: vim. Saat ini hanya modern didukung.");
    let err = cfg.set_key("sync.interval_hours", "-1").unwrap_err();
    assert_eq!(err.message(), "sync.interval_hours harus angka positif");
    let err = cfg.set_key("audio.cache_max_mb", "lots").unwrap_err();
    assert_eq!(err.message(), "audio.cache_max_mb harus angka positif");
    let err = cfg.set_key("audio.default_qari", "99").unwrap_err();
    assert_eq!(err.message(), "Nilai audio.default_qari tidak valid: 99. Gunakan 01..06.");
    let err = cfg.set_key("colour", "red").unwrap_err();
    assert_eq!(err.message(), "Key config tidak dikenal: colour");
    assert_eq!(cfg.ui.output, "rich");
    assert_eq!(cfg.sync.interval_hours, 24);
}

#[test]
fn value_parsers_accept_their_words() {
    for v in ["true", "1", "yes", "on"] {
        assert!(parse_bool(v).unwrap());
    }
    for v in ["false", "0", "no", "off"] {
        assert!(!parse_bool(v).unwrap());
    }
    assert!(parse_bool("TRUE").is_err());
    assert_eq!(parse_output("plain").unwrap(), "plain");
    assert!(parse_output("Rich").is_err());
    assert_eq!(parse_keymap("modern").unwrap(), "modern");
    assert_eq!(parse_qari("05").unwrap(), "05");
    assert!(matches!(parse_qari(""), Err(ConfigError::InvalidQari(_))));
}

#[test]
fn ui_theme_and_output_fall_back_when_blank() {
    let mut cfg = AppConfig::default();
    cfg.theme = "dark".to_string();
    cfg.ui.theme = "  ".to_string();
    assert_eq!(cfg.ui_theme(), "dark");
    cfg.ui.theme = "light".to_string();
    assert_eq!(cfg.ui_theme(), "light");
    cfg.ui.output = "".to_string();
    assert_eq!(cfg.ui_output(), "rich");
    cfg.ui.output = "plain".to_string();
    assert_eq!(cfg.ui_output(), "plain");
}

#[test]
fn loaded_settings_get_their_gaps_filled() {
    let mut cfg = AppConfig::default();
    cfg.theme = "dark".to_string();
    cfg.ui.theme = "".to_string();
    cfg.ui.output = " ".to_string();
    cfg.ui.keymap = "".to_string();
    cfg.audio.default_qari = "".to_string();
    cfg.audio.cache_max_mb = 0;
    fill_loaded_defaults(&mut cfg);
    assert_eq!(cfg.ui.theme, "dark");
    assert_eq!(cfg.ui.output, "rich");
    assert_eq!(cfg.ui.keymap, "modern");
    assert_eq!(cfg.audio.default_qari, "05");
    assert_eq!(cfg.audio.cache_max_mb, 512);
}

#[test]
fn attribution_notice_names_the_source() {
    assert!(attribution_notice().starts_with("Quran content is fetched live from equran.id API v2."));
}

#[test]
fn plan_count_must_be_between_one_and_a_thousand() {
    assert_eq!(parse_plan_count("5"), Ok(5));
    assert_eq!(parse_plan_count("1000"), Ok(1000));
    assert_eq!(parse_plan_count("0"), Err("count harus 1..1000".to_string()));
    assert_eq!(parse_plan_count("1001"), Err("count harus 1..1000".to_string()));
    assert_eq!(parse_plan_count("five"), Err("count harus berupa angka".to_string()));
}

#[test]
fn output_mode_prefers_flags_over_settings() {
    assert!(OutputMode::from_flags_and_config(true, true, "rich").is_err());
    assert_eq!(OutputMode::from_flags_and_config(false, true, "plain").unwrap(), OutputMode::Json);
    assert_eq!(OutputMode::from_flags_and_config(true, false, "json").unwrap(), OutputMode::Plain);
    assert_eq!(OutputMode::from_flags_and_config(false, false, "json").unwrap(), OutputMode::Json);
    assert_eq!(OutputMode::from_flags_and_config(false, false, "plain").unwrap(), OutputMode::Plain);
    assert_eq!(OutputMode::from_flags_and_config(false, false, "other").unwrap(), OutputMode::Rich);
    let out = Output::new(OutputMode::Plain, false);
    assert_eq!(out.mode(), OutputMode::Plain);
    assert!(!out.color_enabled());
}
