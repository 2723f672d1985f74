use std::sync::Mutex;

use tada_rust::audio::AudioCommand;
use tada_rust::domain::{
    Ayah, AyahRef, Bookmark, BookmarkId, LanguageTag, SearchHit, SearchLimit, StudyProgress,
    SurahMeta, SurahNumber,
};
use tada_rust::ports::{BookmarkRepository, ProgressRepository, QuranReadRepository, RepoError};
use tada_rust::qari_urls::QariUrls;
use tada_rust::tui::actions::{apply_intent, sync_audio_tick};
use tada_rust::tui::input::{map_key_to_intent, Key, KeyCode};
use tada_rust::tui::theme::default_themes;
use tada_rust::tui::{
    close_session, open_session, palette_commands, session_start, Intent, PaneFocus, TuiState, UiMode,
};
use tada_rust::usecases::UseCaseError;

fn surah(no: u16, name: &str, count: u16) -> SurahMeta {
    SurahMeta {
        surah_no: no,
        name_ar: name.to_string(),
        name_id: name.to_string(),
        ayah_count: count,
        audio_full: None,
        audio_full_urls: QariUrls::new(),
    }
}

fn ayah(surah_no: u16, ayah_no: u16) -> Ayah {
    Ayah {
        surah_no,
        ayah_no,
        arabic_text: format!("arab-{surah_no}-{ayah_no}"),
        transliteration: None,
        translation: Some(format!("tr-{surah_no}-{ayah_no}")),
        audio_url: None,
        audio_urls: QariUrls::new(),
    }
}

struct Store {
    progress: Mutex<Vec<(u16, u16)>>,
    bookmarks: Mutex<Vec<Bookmark>>,
    next_id: Mutex<i64>,
    fail_reads: bool,
}

impl Store {
    fn new() -> Self {
        Store {
            progress: Mutex::new(Vec::new()),
            bookmarks: Mutex::new(Vec::new()),
            next_id: Mutex::new(1),
            fail_reads: false,
        }
    }
}

impl QuranReadRepository for Store {
    fn list_surahs(&self) -> Result<Vec<SurahMeta>, RepoError> {
        Ok(vec![surah(1, "Al-Fatihah", 7), surah(2, "Al-Baqarah", 286), surah(3, "Ali Imran", 200)])
    }

    fn read_ayah(&self, target: AyahRef, _lang: &LanguageTag) -> Result<Option<Ayah>, RepoError> {
        Ok(Some(ayah(target.surah().value(), target.ayah().value())))
    }

    fn read_surah(&self, surah: SurahNumber, _lang: &LanguageTag) -> Result<Vec<Ayah>, RepoError> {
        if self.fail_reads {
            return Err(RepoError { message: "offline".to_string() });
        }
        Ok((1..=5).map(|n| ayah(surah.value(), n)).collect())
    }

    fn search(
        &self,
        _query: &str,
        _search_quran: bool,
        _search_translation: bool,
        _limit: SearchLimit,
    ) -> Result<Vec<SearchHit>, RepoError> {
        Ok(vec![
            SearchHit { surah_no: 2, ayah_no: 3, snippet: "hit".to_string() },
            SearchHit { surah_no: 3, ayah_no: 4, snippet: "hit".to_string() },
        ])
    }
}

impl BookmarkRepository for Store {
    fn add_bookmark(&self, target: AyahRef, note: Option<&str>) -> Result<BookmarkId, RepoError> {
        let mut id = self.next_id.lock().unwrap();
        let b = Bookmark {
            id: *id,
            surah_no: target.surah().value(),
            ayah_no: target.ayah().value(),
            note: note.map(|n| n.to_string()),
            created_at: "now".to_string(),
        };
        self.bookmarks.lock().unwrap().push(b);
        let out = BookmarkId::new(*id).map_err(|e| RepoError { message: e.message() })?;
        *id += 1;
        Ok(out)
    }

    fn list_bookmarks(&self) -> Result<Vec<Bookmark>, RepoError> {
        Ok(self.bookmarks.lock().unwrap().clone())
    }

    fn remove_bookmark(&self, bookmark_id: BookmarkId) -> Result<usize, RepoError> {
        let mut all = self.bookmarks.lock().unwrap();
        let before = all.len();
        all.retain(|b| b.id != bookmark_id.value());
        Ok(before - all.len())
    }
}

impl ProgressRepository for Store {
    fn set_progress(&self, target: AyahRef) -> Result<(), RepoError> {
        self.progress.lock().unwrap().push((target.surah().value(), target.ayah().value()));
        Ok(())
    }

    fn get_progress(&self) -> Result<Option<StudyProgress>, RepoError> {
        Ok(None)
    }
}

fn lang() -> LanguageTag {
    LanguageTag::new("id").unwrap()
}

fn open(store: &Store) -> TuiState {
    open_session(store, &lang(), default_themes(), "dark", true, true, "05".to_string(), None, None, false)
        .map_err(|e| e.message())
        .unwrap()
}

fn step(store: &Store, state: &mut TuiState, intent: Intent) -> bool {
    apply_intent(store, store, &lang(), state, intent, 140, 40).map_err(|e| e.message()).unwrap()
}

#[test]
fn reader_opens_on_first_surah_with_chosen_theme() {
    let store = Store::new();
    let state = open(&store);
    assert_eq!(state.selected_surah_idx, 0);
    assert_eq!(state.ayahs.len(), 5);
    assert_eq!(state.theme_idx, 1);
    assert_eq!(state.status, "Membaca Al-Fatihah [7 ayat]");
    assert_eq!(state.mode, UiMode::Reading);
    assert!(state.sidebar_collapsed);
}

#[test]
fn reader_opens_at_requested_position_and_plays() {
    let store = Store::new();
    let mut state = open_session(&store, &lang(), default_themes(), "LIGHT", true, true, "03".to_string(), Some(2), Some(9), true)
        .map_err(|e| e.message())
        .unwrap();
    assert_eq!(state.theme_idx, 0);
    assert_eq!(state.selected_surah_idx, 1);
    assert_eq!(state.selected_ayah_idx, 4);
    assert!(state.player.is_some());
    assert_eq!(state.status, "PLAY 2:5 | qari 03");
    assert_eq!(state.take_audio_commands(), vec![AudioCommand::Open, AudioCommand::Start(0)]);
    assert!(state.audio.is_empty());
}

#[test]
fn empty_catalogue_is_refused() {
    struct Empty;
    impl QuranReadRepository for Empty {
        fn list_surahs(&self) -> Result<Vec<SurahMeta>, RepoError> {
            Ok(vec![])
        }
        fn read_ayah(&self, _t: AyahRef, _l: &LanguageTag) -> Result<Option<Ayah>, RepoError> {
            Ok(None)
        }
        fn read_surah(&self, _s: SurahNumber, _l: &LanguageTag) -> Result<Vec<Ayah>, RepoError> {
            Ok(vec![])
        }
        fn search(&self, _q: &str, _a: bool, _b: bool, _l: SearchLimit) -> Result<Vec<SearchHit>, RepoError> {
            Ok(vec![])
        }
    }
    let err = open_session(&Empty, &lang(), default_themes(), "dark", true, true, "05".to_string(), None, None, false);
    assert_eq!(err.map(|_| ()).map_err(|e| e.message()), Err("Tidak ada data surah dari API".to_string()));
}

#[test]
fn next_and_previous_ayah_store_progress() {
    let store = Store::new();
    let mut state = open(&store);
    assert!(!step(&store, &mut state, Intent::NextAyah));
    assert!(!step(&store, &mut state, Intent::NextAyah));
    assert_eq!(state.selected_ayah_idx, 2);
    assert!(!step(&store, &mut state, Intent::PrevAyah));
    assert_eq!(state.selected_ayah_idx, 1);
    assert_eq!(*store.progress.lock().unwrap(), vec![(1, 2), (1, 3), (1, 2)]);
    state.selected_ayah_idx = 4;
    step(&store, &mut state, Intent::NextAyah);
    assert_eq!(state.selected_ayah_idx, 4);
}

#[test]
fn quit_asks_to_close_and_changes_nothing() {
    let store = Store::new();
    let mut state = open(&store);
    assert!(step(&store, &mut state, Intent::Quit));
    assert_eq!(state.status, "Membaca Al-Fatihah [7 ayat]");
}

#[test]
fn surah_navigation_loads_the_next_surah() {
    let store = Store::new();
    let mut state = open(&store);
    step(&store, &mut state, Intent::NextSurah);
    assert_eq!(state.selected_surah_idx, 1);
    assert_eq!(state.surah_cursor_idx, 1);
    assert_eq!(state.status, "Membaca Al-Baqarah [286 ayat]");
    step(&store, &mut state, Intent::PrevSurah);
    step(&store, &mut state, Intent::PrevSurah);
    assert_eq!(state.selected_surah_idx, 0);
    assert_eq!(state.status, "Audio berhenti");
}

#[test]
fn failed_load_keeps_the_switched_selection() {
    let mut store = Store::new();
    let mut state = open(&store);
    store.fail_reads = true;
    let r = apply_intent(&store, &store, &lang(), &mut state, Intent::NextSurah, 140, 40);
    assert_eq!(r.map_err(|e| e.message()), Err("offline".to_string()));
    assert_eq!(state.selected_surah_idx, 1);
    assert_eq!(state.ayahs[0].surah_no, 1);
}

#[test]
fn sidebar_opens_only_where_it_fits() {
    let store = Store::new();
    let mut state = open(&store);
    apply_intent(&store, &store, &lang(), &mut state, Intent::ToggleSidebar, 100, 40).unwrap();
    assert!(state.sidebar_collapsed);
    assert_eq!(state.status, "Ukuran terminal terlalu kecil untuk panel surat.");
    step(&store, &mut state, Intent::ToggleSidebar);
    assert!(!state.sidebar_collapsed);
    assert_eq!(state.focus, PaneFocus::SurahCards);
    step(&store, &mut state, Intent::FocusNextPane);
    assert_eq!(state.focus, PaneFocus::AyahReader);
    apply_intent(&store, &store, &lang(), &mut state, Intent::CloseOverlay, 80, 20).unwrap();
    assert!(state.sidebar_collapsed);
    assert_eq!(state.focus, PaneFocus::AyahReader);
}

#[test]
fn surah_filter_moves_cursor_and_reports_hits() {
    let store = Store::new();
    let mut state = open(&store);
    step(&store, &mut state, Intent::SurahFilterType('a'));
    step(&store, &mut state, Intent::SurahFilterType('l'));
    step(&store, &mut state, Intent::SurahFilterType('i'));
    assert_eq!(state.surah_filter, "ali");
    assert_eq!(state.surah_cursor_idx, 2);
    assert_eq!(state.status, "Filter surat: 'ali' (1 hasil)");
    step(&store, &mut state, Intent::SurahFilterType('x'));
    assert_eq!(state.status, "Filter 'alix' tidak ada hasil.");
    step(&store, &mut state, Intent::SurahFilterBackspace);
    assert_eq!(state.surah_filter, "ali");
    step(&store, &mut state, Intent::SurahCursorSelect);
    assert_eq!(state.selected_surah_idx, 2);
    assert_eq!(state.status, "Membaca Ali Imran [200 ayat]");
    step(&store, &mut state, Intent::SurahFilterClear);
    assert_eq!(state.surah_filter, "");
    assert_eq!(state.status, "Filter surat dibersihkan.");
    step(&store, &mut state, Intent::SurahCursorUp);
    assert_eq!(state.surah_cursor_idx, 1);
    step(&store, &mut state, Intent::SurahCursorDown);
    step(&store, &mut state, Intent::SurahCursorDown);
    assert_eq!(state.surah_cursor_idx, 2);
}

#[test]
fn playback_emits_device_commands() {
    let store = Store::new();
    let mut state = open(&store);
    state.selected_ayah_idx = 3;
    step(&store, &mut state, Intent::TogglePlayback);
    assert_eq!(state.status, "PLAY 1:4 | qari 05");
    step(&store, &mut state, Intent::TogglePlayback);
    assert_eq!(state.status, "Audio pause. j/k pindah ayat, Space lanjut.");
    step(&store, &mut state, Intent::AudioSpeedUp);
    assert_eq!(state.status, "Playback speed 1.05x");
    step(&store, &mut state, Intent::NextAyah);
    assert!(state.player.is_none());
    assert_eq!(state.status, "Audio pause dibatalkan. Ayat aktif 1:5");
    assert_eq!(
        state.take_audio_commands(),
        vec![
            AudioCommand::Open,
            AudioCommand::Start(0),
            AudioCommand::Pause,
            AudioCommand::SetSpeed(105),
            AudioCommand::Stop,
            AudioCommand::Close,
        ]
    );
}

#[test]
fn periodic_check_follows_and_finishes_playback() {
    let store = Store::new();
    let mut state = open(&store);
    state.selected_ayah_idx = 3;
    step(&store, &mut state, Intent::TogglePlayback);
    state.take_audio_commands();
    sync_audio_tick(&store, &mut state, false).unwrap();
    assert_eq!(state.selected_ayah_idx, 3);
    sync_audio_tick(&store, &mut state, true).unwrap();
    assert_eq!(state.selected_ayah_idx, 4);
    assert_eq!(state.status, "PLAY 1:5 | qari 05");
    sync_audio_tick(&store, &mut state, true).unwrap();
    assert!(state.player.is_none());
    assert_eq!(state.status, "Audio selesai");
    assert_eq!(
        state.take_audio_commands(),
        vec![AudioCommand::Start(1), AudioCommand::Stop, AudioCommand::Close]
    );
}

#[test]
fn qari_cycles_and_restarts_the_player() {
    let store = Store::new();
    let mut state = open(&store);
    step(&store, &mut state, Intent::CycleQari);
    assert_eq!(state.active_qari, "06");
    assert_eq!(state.status, "Qari aktif 06 (Yasser Al-Dosari)");
    step(&store, &mut state, Intent::CycleQari);
    assert_eq!(state.active_qari, "01");
}

#[test]
fn bookmarks_add_list_delete_and_jump() {
    let store = Store::new();
    let mut state = open(&store);
    step(&store, &mut state, Intent::AddBookmark);
    assert_eq!(state.status, "Bookmark #1 ditambahkan (1:1)");
    step(&store, &mut state, Intent::NextSurah);
    step(&store, &mut state, Intent::NextAyah);
    step(&store, &mut state, Intent::AddBookmark);
    step(&store, &mut state, Intent::OpenBookmarks);
    assert_eq!(state.mode, UiMode::BookmarkOverlay);
    assert_eq!(state.bookmarks.len(), 2);
    step(&store, &mut state, Intent::BookmarkMoveDown);
    step(&store, &mut state, Intent::BookmarkMoveDown);
    assert_eq!(state.selected_bookmark_idx, 1);
    step(&store, &mut state, Intent::BookmarkDelete);
    assert_eq!(state.status, "Bookmark #2 dihapus (2:2).");
    assert_eq!(state.bookmarks.len(), 1);
    assert_eq!(state.selected_bookmark_idx, 0);
    step(&store, &mut state, Intent::BookmarkJump);
    assert_eq!(state.mode, UiMode::Reading);
    assert_eq!(state.selected_surah_idx, 0);
    assert_eq!(state.status, "Lompat ke bookmark #1 (1:1)");
}

#[test]
fn removing_current_ayah_bookmarks_counts_them() {
    let store = Store::new();
    let mut state = open(&store);
    step(&store, &mut state, Intent::AddBookmark);
    step(&store, &mut state, Intent::AddBookmark);
    step(&store, &mut state, Intent::RemoveCurrentAyahBookmarks);
    assert_eq!(state.status, "2 bookmark dihapus dari ayat 1:1.");
    step(&store, &mut state, Intent::RemoveCurrentAyahBookmarks);
    assert_eq!(state.status, "Belum ada bookmark pada ayat aktif 1:1.");
    step(&store, &mut state, Intent::BookmarkDelete);
    assert_eq!(state.status, "Belum ada bookmark untuk dihapus.");
}

#[test]
fn search_finds_then_jumps() {
    let store = Store::new();
    let mut state = open(&store);
    step(&store, &mut state, Intent::OpenSearch);
    step(&store, &mut state, Intent::SearchSubmit);
    assert_eq!(state.status, "Query kosong");
    for c in "  rahmat ".chars() {
        step(&store, &mut state, Intent::SearchType(c));
    }
    step(&store, &mut state, Intent::SearchSubmit);
    assert_eq!(state.status, "2 hasil ditemukan");
    step(&store, &mut state, Intent::SearchMoveDown);
    step(&store, &mut state, Intent::SearchMoveDown);
    assert_eq!(state.selected_search_idx, 1);
    step(&store, &mut state, Intent::SearchSubmit);
    assert_eq!(state.mode, UiMode::Reading);
    assert_eq!(state.selected_surah_idx, 2);
    assert_eq!(state.selected_ayah_idx, 3);
    assert_eq!(state.status, "Lompat ke 3:4");
}

#[test]
fn palette_filters_and_runs_entries() {
    let store = Store::new();
    let mut state = open(&store);
    assert_eq!(palette_commands().len(), 11);
    step(&store, &mut state, Intent::OpenPalette);
    assert_eq!(state.mode, UiMode::CommandPalette);
    assert_eq!(state.filtered_palette().len(), 11);
    for c in "THEME".chars() {
        step(&store, &mut state, Intent::PaletteType(c));
    }
    let items = state.filtered_palette();
    assert_eq!(items.len(), 1);
    assert_eq!(items[0].label, "Cycle theme");
    step(&store, &mut state, Intent::PaletteSubmit);
    assert_eq!(state.mode, UiMode::Reading);
    assert_eq!(state.theme_idx, 0);
    assert_eq!(state.status, "Tema diubah ke: Light");
    step(&store, &mut state, Intent::OpenPalette);
    for c in "exit".chars() {
        step(&store, &mut state, Intent::PaletteType(c));
    }
    step(&store, &mut state, Intent::PaletteSubmit);
    assert_eq!(state.status, "Gunakan q untuk keluar");
}

#[test]
fn keys_map_to_intents_by_mode() {
    let store = Store::new();
    let mut state = open(&store);
    let key = |code| Key { code, ctrl: false, alt: false };
    assert_eq!(map_key_to_intent(&state, key(KeyCode::Char('j'))), Some(Intent::NextAyah));
    assert_eq!(map_key_to_intent(&state, key(KeyCode::Char('x'))), None);
    assert_eq!(
        map_key_to_intent(&state, Key { code: KeyCode::Char('k'), ctrl: true, alt: false }),
        Some(Intent::OpenPalette)
    );
    step(&store, &mut state, Intent::ToggleSidebar);
    assert_eq!(map_key_to_intent(&state, key(KeyCode::Char('j'))), Some(Intent::SurahCursorDown));
    assert_eq!(map_key_to_intent(&state, key(KeyCode::Char('x'))), Some(Intent::SurahFilterType('x')));
    assert_eq!(map_key_to_intent(&state, key(KeyCode::Esc)), None);
    state.mode = UiMode::SearchInline;
    assert_eq!(map_key_to_intent(&state, key(KeyCode::Char('q'))), Some(Intent::SearchType('q')));
    state.mode = UiMode::HelpOverlay;
    assert_eq!(map_key_to_intent(&state, key(KeyCode::F(1))), Some(Intent::CloseOverlay));
    state.mode = UiMode::BookmarkOverlay;
    assert_eq!(map_key_to_intent(&state, key(KeyCode::Enter)), Some(Intent::BookmarkJump));
}

#[test]
fn closing_the_reader_stores_the_selected_ayah() {
    let store = Store::new();
    let mut state = open(&store);
    state.selected_ayah_idx = 2;
    close_session(&store, &state).unwrap();
    assert_eq!(*store.progress.lock().unwrap(), vec![(1, 3)]);
    state.selected_ayah_idx = 10;
    close_session(&store, &state).unwrap();
    assert_eq!(store.progress.lock().unwrap().len(), 1);
}

#[test]
fn help_keys_for_bookmarks_are_bound() {
    let store = Store::new();
    let mut state = open(&store);
    let key = |code| Key { code, ctrl: false, alt: false };
    assert_eq!(map_key_to_intent(&state, key(KeyCode::Char('b'))), Some(Intent::OpenBookmarks));
    assert_eq!(
        map_key_to_intent(&state, key(KeyCode::Char('u'))),
        Some(Intent::RemoveCurrentAyahBookmarks)
    );
    // While the surah filter takes typing, the letters go to the filter.
    step(&store, &mut state, Intent::ToggleSidebar);
    assert_eq!(map_key_to_intent(&state, key(KeyCode::Char('b'))), Some(Intent::SurahFilterType('b')));
    assert_eq!(map_key_to_intent(&state, key(KeyCode::Char('u'))), Some(Intent::SurahFilterType('u')));
    state.mode = UiMode::BookmarkOverlay;
    assert_eq!(map_key_to_intent(&state, key(KeyCode::Char('d'))), Some(Intent::BookmarkDelete));
    assert_eq!(map_key_to_intent(&state, key(KeyCode::Delete)), Some(Intent::BookmarkDelete));
    assert_eq!(map_key_to_intent(&state, key(KeyCode::Char('x'))), None);
}

#[test]
fn session_start_refuses_an_empty_catalogue_and_finds_the_surah() {
    match session_start(Vec::new(), default_themes(), "dark", true, true, "05".to_string(), None) {
        Err(UseCaseError::Infra(e)) => assert_eq!(e.message, "Tidak ada data surah dari API"),
        _ => panic!("an empty catalogue must be refused"),
    }
    let surahs = vec![surah(1, "Al-Fatihah", 7), surah(2, "Al-Baqarah", 286)];
    let st = session_start(surahs, default_themes(), "dark", true, true, "05".to_string(), Some(2))
        .unwrap();
    assert_eq!((st.selected_surah_idx, st.surah_cursor_idx), (1, 1));
}

#[test]
fn finish_launch_keeps_the_ayah_within_the_surah() {
    let store = Store::new();
    let mut state = open(&store);
    state.finish_launch(Some(99), false);
    assert_eq!(state.selected_ayah_idx, state.ayahs.len() - 1);
    state.finish_launch(Some(2), true);
    assert_eq!(state.selected_ayah_idx, 1);
    assert!(state.player.is_some());
}
