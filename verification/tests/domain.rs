use tada_rust::audio::{
    cached_ayah_file_name, eviction_order, next_qari, qari_name, sanitize_qari_id, speed_label,
    streamed_ayah_file_name, AudioCommand, AudioPlayer, CacheEntry, PlayerTick,
};
use tada_rust::domain::{
    normalize_qari_id, resolve_qari_url, Ayah, AyahNumber, AyahRef, BookmarkId, DomainError,
    LanguageTag, PlanCount, QariId, SearchLimit, StudyProgress, SurahMeta, SurahNumber,
};
use tada_rust::qari_urls::QariUrls;
use tada_rust::usecases::{ayah_ref_from_raw, first_position, next_position, plan_start};

fn surah(no: u16, count: u16) -> SurahMeta {
    SurahMeta {
        surah_no: no,
        name_ar: String::new(),
        name_id: String::new(),
        ayah_count: count,
        audio_full: None,
        audio_full_urls: QariUrls::new(),
    }
}

fn ayah(no: u16) -> Ayah {
    Ayah {
        surah_no: 1,
        ayah_no: no,
        arabic_text: String::new(),
        transliteration: None,
        translation: None,
        audio_url: None,
        audio_urls: QariUrls::new(),
    }
}

#[test]
fn numbers_are_checked_against_their_ranges() {
    assert!(SurahNumber::new(0).is_err());
    assert_eq!(SurahNumber::new(114).unwrap().value(), 114);
    assert_eq!(SurahNumber::new(115).unwrap_err().message(), "surah must be between 1 and 114, got 115");
    assert_eq!(AyahNumber::new(287).unwrap_err(), DomainError::InvalidAyah(287));
    assert_eq!(BookmarkId::new(0).unwrap_err().message(), "bookmark id must be > 0, got 0");
    assert_eq!(BookmarkId::new(-3).unwrap_err().message(), "bookmark id must be > 0, got -3");
    assert!(SearchLimit::new(201).is_err());
    assert_eq!(SearchLimit::new(200).unwrap().value(), 200);
    assert!(PlanCount::new(0).is_err());
    assert_eq!(PlanCount::new(1000).unwrap().value(), 1000);
    let r = AyahRef::new(SurahNumber::new(2).unwrap(), AyahNumber::new(255).unwrap());
    assert_eq!(r.label(), "2:255");
    assert!(ayah_ref_from_raw(0, 1).is_err());
    assert_eq!(ayah_ref_from_raw(3, 4).unwrap().label(), "3:4");
}

#[test]
fn qari_ids_accept_numbers_and_names() {
    assert_eq!(normalize_qari_id(" Afasy "), Some("05"));
    assert_eq!(normalize_qari_id("3"), Some("03"));
    assert_eq!(normalize_qari_id("07"), None);
    assert_eq!(QariId::new("SUDAIS").unwrap().as_str(), "03");
    assert_eq!(QariId::new("x").unwrap_err().message(), "unsupported qari id: x");
    assert_eq!(qari_name("05"), "Misyari Rasyid Al-Afasy");
    assert_eq!(qari_name("09"), "Qari Tidak Dikenal");
    assert_eq!(next_qari("06"), "01");
    assert_eq!(next_qari("?"), "01");
}

#[test]
fn language_tags_are_trimmed_and_lowered() {
    assert_eq!(LanguageTag::new(" ID ").unwrap().as_str(), "id");
    assert_eq!(LanguageTag::new("  ").unwrap_err(), DomainError::EmptyLanguageTag);
    assert_eq!(
        LanguageTag::new("e n").unwrap_err().message(),
        "language tag contains invalid characters: e n"
    );
}

#[test]
fn qari_url_prefers_selected_then_fallback_then_first() {
    let mut urls = QariUrls::new();
    urls.insert("03".to_string(), "u3".to_string());
    urls.insert("01".to_string(), "u1".to_string());
    assert_eq!(resolve_qari_url(&urls, Some("03"), Some("01"), None).as_deref(), Some("u3"));
    assert_eq!(resolve_qari_url(&urls, Some("06"), Some("01"), None).as_deref(), Some("u1"));
    assert_eq!(resolve_qari_url(&urls, Some("06"), Some("05"), None).as_deref(), Some("u1"));
    let empty = QariUrls::new();
    assert_eq!(resolve_qari_url(&empty, None, None, Some("d")).as_deref(), Some("d"));
    assert_eq!(resolve_qari_url(&empty, None, None, None), None);
}

#[test]
fn qari_map_insert_replaces_and_keeps_keys_sorted() {
    let mut urls = QariUrls::new();
    urls.insert("05".to_string(), "a".to_string());
    urls.insert("02".to_string(), "b".to_string());
    urls.insert("05".to_string(), "c".to_string());
    assert_eq!(urls.len(), 2);
    assert_eq!(urls.entry(0), ("02", "b"));
    assert_eq!(urls.get("05").map(|s| s.as_str()), Some("c"));
    assert_eq!(urls.first_value().map(|s| s.as_str()), Some("b"));
}

#[test]
fn positions_walk_the_catalogue() {
    let surahs = vec![surah(1, 7), surah(2, 286)];
    let p = first_position(&surahs).unwrap();
    assert_eq!(p.label(), "1:1");
    let at = |s: u16, a: u16| ayah_ref_from_raw(s, a).unwrap();
    assert_eq!(next_position(&surahs, at(1, 6)).unwrap().unwrap().label(), "1:7");
    assert_eq!(next_position(&surahs, at(1, 7)).unwrap().unwrap().label(), "2:1");
    assert!(next_position(&surahs, at(2, 286)).unwrap().is_none());
    assert_eq!(
        next_position(&surahs, at(9, 1)).unwrap_err().message(),
        "surah 9 missing from metadata"
    );
    assert_eq!(first_position(&vec![]).unwrap_err().message(), "empty surah list");
    assert_eq!(plan_start(None, &surahs).unwrap().label(), "1:1");
    let stored = StudyProgress { last_surah_no: 2, last_ayah_no: 5 };
    assert_eq!(plan_start(Some(stored), &surahs).unwrap().label(), "2:5");
}

#[test]
fn cache_file_names_are_zero_padded() {
    assert_eq!(cached_ayah_file_name(1, 7), "001-007.mp3");
    assert_eq!(streamed_ayah_file_name("0/5!", 18, 110), "05-018-110.mp3");
    assert_eq!(sanitize_qari_id("a-b_c9"), "abc9");
}

#[test]
fn eviction_order_is_oldest_first_and_stable() {
    let entries = vec![
        CacheEntry { size: 1, modified: 30 },
        CacheEntry { size: 2, modified: 10 },
        CacheEntry { size: 3, modified: 30 },
        CacheEntry { size: 4, modified: 20 },
    ];
    assert_eq!(eviction_order(&entries), vec![1, 3, 0, 2]);
}

#[test]
fn player_walks_the_playlist() {
    let mut cmds = Vec::new();
    assert_eq!(
        AudioPlayer::new(vec![], 0, None, "05".to_string(), &mut cmds).unwrap_err().message,
        "Playlist audio kosong"
    );
    let mut p = AudioPlayer::new(vec![ayah(1), ayah(2)], 5, None, "05".to_string(), &mut cmds).unwrap();
    assert_eq!(p.index, 1);
    assert!(!p.advance(&mut cmds));
    assert_eq!(p.tick(true, &mut cmds), PlayerTick::Finished);
    let mut q = AudioPlayer::new(vec![ayah(1), ayah(2)], 0, None, "05".to_string(), &mut cmds).unwrap();
    assert_eq!(q.tick(false, &mut cmds), PlayerTick::NoChange);
    assert_eq!(q.tick(true, &mut cmds), PlayerTick::AyahStarted(1));
    assert!(q.prev(&mut cmds));
    q.set_playback_rate(200, &mut cmds);
    assert_eq!(q.playback_rate(), 125);
    assert_eq!(speed_label(q.playback_rate()), "1.25x");
    assert_eq!(speed_label(75), "0.75x");
    assert_eq!(
        cmds,
        vec![
            AudioCommand::Open,
            AudioCommand::Start(1),
            AudioCommand::Stop,
            AudioCommand::Open,
            AudioCommand::Start(0),
            AudioCommand::Start(1),
            AudioCommand::Start(0),
            AudioCommand::SetSpeed(125),
        ]
    );
}

#[test]
fn language_tag_errors_follow_the_trimmed_input() {
    assert_eq!(LanguageTag::new("en-US").unwrap().as_str(), "en-us");
    assert_eq!(LanguageTag::new("   ").unwrap_err(), DomainError::EmptyLanguageTag);
    assert_eq!(
        LanguageTag::new(" en_US ").unwrap_err(),
        DomainError::InvalidLanguageTag("en_US".to_string())
    );
}

#[test]
fn checked_numbers_convert_both_ways() {
    let s = SurahNumber::try_from(36u16).unwrap();
    assert_eq!(u16::from(s), 36);
    assert_eq!(SurahNumber::try_from(0u16).unwrap_err(), DomainError::InvalidSurah(0));
    assert_eq!(u16::from(AyahNumber::try_from(286u16).unwrap()), 286);
    assert_eq!(AyahNumber::try_from(287u16).unwrap_err(), DomainError::InvalidAyah(287));
    assert_eq!(i64::from(BookmarkId::try_from(7i64).unwrap()), 7);
    assert_eq!(BookmarkId::try_from(0i64).unwrap_err(), DomainError::InvalidBookmarkId(0));
    assert_eq!(u16::from(SearchLimit::try_from(200u16).unwrap()), 200);
    assert_eq!(SearchLimit::try_from(201u16).unwrap_err(), DomainError::InvalidSearchLimit(201));
    assert_eq!(usize::from(PlanCount::try_from(5usize).unwrap()), 5);
    assert_eq!(PlanCount::try_from(1001usize).unwrap_err(), DomainError::InvalidPlanCount(1001));
}

#[test]
fn catalogue_records_clone() {
    let mut urls = QariUrls::new();
    urls.insert("05".to_string(), "u5".to_string());
    let s = SurahMeta {
        surah_no: 1,
        name_ar: "a".to_string(),
        name_id: "b".to_string(),
        ayah_count: 7,
        audio_full: None,
        audio_full_urls: urls,
    };
    let c = s.clone();
    assert_eq!(c.audio_full_urls.get("05").map(|v| v.as_str()), Some("u5"));
    assert_eq!(c.ayah_count, 7);
}
