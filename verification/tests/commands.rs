use std::path::PathBuf;

use tada_rust::cli;
use tada_rust::commands::{
    bookmark_added_message, bookmark_removed_message, bookmark_rows, build_read_input,
    build_read_target, menu_action, menu_labels, note_from_input, plan_rows, presence_label,
    prompt_range_message, prompt_value_in_range, removal_gate, removal_prompt,
    removal_refused_message, scope_from_choice, search_rows, search_scope_of, sync_report,
    MenuAction, RemovalGate,
};
use tada_rust::config::AppConfig;
use tada_rust::domain::{Ayah, Bookmark, DomainError, SearchHit};
use tada_rust::dto::{ReadTarget, SearchScope, SyncStatus};
use tada_rust::qari_urls::QariUrls;
use tada_rust::tui::TuiLaunchOptions;

#[test]
fn read_arguments_become_targets() {
    assert!(matches!(build_read_target(1, None), Ok(ReadTarget::Surah(_))));
    match build_read_target(2, Some(255)) {
        Ok(ReadTarget::Ayah(r)) => assert_eq!(r.label(), "2:255"),
        other => panic!("unexpected {other:?}"),
    }
    assert_eq!(build_read_target(0, None).unwrap_err(), DomainError::InvalidSurah(0));
    assert_eq!(build_read_target(1, Some(300)).unwrap_err(), DomainError::InvalidAyah(300));
    let input = build_read_input(1, Some(1), "ID").unwrap();
    assert_eq!(input.lang.as_str(), "id");
    assert_eq!(build_read_input(1, None, "").unwrap_err(), DomainError::EmptyLanguageTag);
}

#[test]
fn prompts_and_menu_choices() {
    assert_eq!(search_scope_of(cli::SearchScope::Translation), SearchScope::Translation);
    assert_eq!(scope_from_choice("Teks Quran"), SearchScope::Quran);
    assert_eq!(scope_from_choice("Terjemahan"), SearchScope::Translation);
    assert_eq!(scope_from_choice("Semua"), SearchScope::All);
    assert_eq!(note_from_input("  ".to_string()), None);
    assert_eq!(note_from_input("Ayat kursi".to_string()), Some("Ayat kursi".to_string()));
    assert!(prompt_value_in_range(114, 1, 114));
    assert!(!prompt_value_in_range(0, 1, 114));
    assert_eq!(prompt_range_message(1, 286), "Nilai harus 1..286");
    assert_eq!(menu_labels().len(), 14);
    assert_eq!(menu_action("Cari ayat"), MenuAction::Search);
    assert_eq!(menu_action("Keluar"), MenuAction::Exit);
    assert_eq!(menu_action("Doctor"), MenuAction::Doctor);
    assert_eq!(menu_action("???"), MenuAction::Exit);
}

#[test]
fn tables_show_one_row_per_item() {
    let hits = vec![SearchHit { surah_no: 2, ayah_no: 3, snippet: "x".to_string() }];
    assert_eq!(search_rows(&hits), vec![vec!["1", "2", "3", "x"]]);
    let marks = vec![Bookmark {
        id: 4,
        surah_no: 1,
        ayah_no: 2,
        note: None,
        created_at: "t".to_string(),
    }];
    assert_eq!(bookmark_rows(&marks), vec![vec!["4", "1", "2", "-", "t"]]);
    let ayahs = vec![Ayah {
        surah_no: 1,
        ayah_no: 1,
        arabic_text: "arab".to_string(),
        transliteration: None,
        translation: None,
        audio_url: None,
        audio_urls: QariUrls::new(),
    }];
    assert_eq!(plan_rows(&ayahs), vec![vec!["1", "1", "arab"]]);
}

#[test]
fn command_messages() {
    assert_eq!(bookmark_added_message(7, 2, 255), "Bookmark #7 ditambahkan di 2:255");
    assert_eq!(bookmark_removed_message(7, 0), (false, "Bookmark #7 tidak ditemukan.".to_string()));
    assert_eq!(bookmark_removed_message(7, 1), (true, "Bookmark #7 dihapus.".to_string()));
    let (kind, msg, json) = sync_report(&SyncStatus::Failure("Sync gagal: offline".to_string()));
    assert_eq!((kind, msg.as_str(), json), ("ERR", "Sync gagal: offline", "failure"));
    let (kind, _, json) = sync_report(&SyncStatus::Skipped);
    assert_eq!((kind, json), ("INFO", "skipped"));
    assert_eq!(presence_label(false), "missing");
}

#[test]
fn launch_options_follow_the_command() {
    let mut cfg = AppConfig::default();
    cfg.ui.theme = "dark".to_string();
    let reader = TuiLaunchOptions::reader(&cfg, PathBuf::from("/tmp/a"), true);
    assert_eq!(reader.theme_mode, "dark");
    assert!(!reader.autoplay);
    assert_eq!(reader.active_qari(), "05");
    let play = TuiLaunchOptions::playback(&cfg, PathBuf::from("/tmp/a"), false, 18, Some(10), true, Some("03".to_string()));
    assert!(play.autoplay);
    assert!(!play.cache_enabled);
    assert_eq!(play.initial_surah, Some(18));
    assert_eq!(play.active_qari(), "03");
}

#[test]
fn bookmark_removal_needs_confirmation_unless_yes() {
    assert_eq!(removal_gate(true, false), RemovalGate::Proceed);
    assert_eq!(removal_gate(false, false), RemovalGate::Refuse);
    assert_eq!(removal_gate(false, true), RemovalGate::Confirm);
    assert_eq!(removal_prompt(4), "Hapus bookmark #4? Aksi ini tidak bisa dibatalkan.");
    assert!(removal_refused_message().contains("--yes"));
}
