use std::path::PathBuf;
use std::sync::Mutex;

use tada_rust::domain::{
    Ayah, AyahNumber, AyahRef, Bookmark, BookmarkId, DomainError, LanguageTag, PlanCount, QariId, SearchHit,
    SearchLimit, StudyProgress, SurahMeta, SurahNumber,
};
use tada_rust::dto::{DoctorInput, PlanInput, PlayInput, ReadInput, ReadOutput, ReadTarget, SyncInput, SyncStatus};
use tada_rust::ports::{
    BookmarkRepository, HealthRepository, ProgressRepository, QuranReadRepository, RepoError,
    SyncGateway, SyncLogRepository,
};
use tada_rust::qari_urls::QariUrls;
use tada_rust::usecases::{
    continue_outcome, continue_target, daily_plan, doctor_outcome, found_ayah, from_repo,
    nonempty_surah, plan_for_catalogue, plan_from_progress, plan_keep, plan_walk, play_ayah_output, play_surah_output, prepare_play, read_quran,
    search_outcome, sync_content, sync_outcome, sync_step, UseCaseError,
};

fn urls(qari: &str, url: &str) -> QariUrls {
    let mut m = QariUrls::new();
    m.insert(qari.to_string(), url.to_string());
    m
}

#[derive(Default)]
struct MockRepo {
    logs: Mutex<Vec<(String, String)>>,
}

impl QuranReadRepository for MockRepo {
    fn list_surahs(&self) -> Result<Vec<SurahMeta>, RepoError> {
        Ok(vec![
            SurahMeta {
                surah_no: 1,
                name_ar: "Al-Fatihah".to_string(),
                name_id: "Al-Fatihah".to_string(),
                ayah_count: 7,
                audio_full: Some("https://cdn.equran.id/audio-full/sample/001.mp3".to_string()),
                audio_full_urls: urls("05", "https://cdn.equran.id/audio-full/sample/001.mp3"),
            },
            SurahMeta {
                surah_no: 2,
                name_ar: "Al-Baqarah".to_string(),
                name_id: "Al-Baqarah".to_string(),
                ayah_count: 286,
                audio_full: Some("https://cdn.equran.id/audio-full/sample/002.mp3".to_string()),
                audio_full_urls: urls("05", "https://cdn.equran.id/audio-full/sample/002.mp3"),
            },
        ])
    }

    fn read_ayah(&self, target: AyahRef, _lang: &LanguageTag) -> Result<Option<Ayah>, RepoError> {
        Ok(Some(Ayah {
            surah_no: target.surah().value(),
            ayah_no: target.ayah().value(),
            arabic_text: "sample".to_string(),
            transliteration: None,
            translation: Some("sample".to_string()),
            audio_url: Some("https://cdn.equran.id/audio-partial/sample.mp3".to_string()),
            audio_urls: urls("05", "https://cdn.equran.id/audio-partial/sample.mp3"),
        }))
    }

    fn read_surah(&self, surah: SurahNumber, _lang: &LanguageTag) -> Result<Vec<Ayah>, RepoError> {
        Ok(vec![Ayah {
            surah_no: surah.value(),
            ayah_no: 1,
            arabic_text: "sample".to_string(),
            transliteration: None,
            translation: Some("sample".to_string()),
            audio_url: Some("https://cdn.equran.id/audio-partial/sample.mp3".to_string()),
            audio_urls: urls("05", "https://cdn.equran.id/audio-partial/sample.mp3"),
        }])
    }

    fn search(
        &self,
        _query: &str,
        _search_quran: bool,
        _search_translation: bool,
        _limit: SearchLimit,
    ) -> Result<Vec<SearchHit>, RepoError> {
        Ok(vec![SearchHit {
            surah_no: 1,
            ayah_no: 1,
            snippet: "sample".to_string(),
        }])
    }
}

impl BookmarkRepository for MockRepo {
    fn add_bookmark(&self, _target: AyahRef, _note: Option<&str>) -> Result<BookmarkId, RepoError> {
        BookmarkId::new(1).map_err(|e| RepoError { message: e.message() })
    }

    fn list_bookmarks(&self) -> Result<Vec<Bookmark>, RepoError> {
        Ok(vec![])
    }

    fn remove_bookmark(&self, _bookmark_id: BookmarkId) -> Result<usize, RepoError> {
        Ok(1)
    }
}

impl ProgressRepository for MockRepo {
    fn set_progress(&self, _target: AyahRef) -> Result<(), RepoError> {
        Ok(())
    }

    fn get_progress(&self) -> Result<Option<StudyProgress>, RepoError> {
        Ok(Some(StudyProgress {
            last_surah_no: 1,
            last_ayah_no: 1,
        }))
    }
}

impl HealthRepository for MockRepo {
    fn bookmark_count(&self) -> Result<i64, RepoError> {
        Ok(2)
    }
}

impl SyncLogRepository for MockRepo {
    fn record_sync(&self, status: &str, message: &str) -> Result<(), RepoError> {
        let mut logs = self.logs.lock().map_err(|err| RepoError {
            message: format!("lock poisoned: {err}"),
        })?;
        logs.push((status.to_string(), message.to_string()));
        Ok(())
    }
}

struct MockGatewayOk;
struct MockGatewayErr;

impl SyncGateway for MockGatewayOk {
    fn ping(&self) -> Result<(), RepoError> {
        Ok(())
    }
}

impl SyncGateway for MockGatewayErr {
    fn ping(&self) -> Result<(), RepoError> {
        Err(RepoError {
            message: "offline".to_string(),
        })
    }
}

#[test]
fn read_single_updates_happy_path() -> Result<(), String> {
    let repo = MockRepo::default();
    let out = read_quran(
        &repo,
        &repo,
        ReadInput::for_ayah(
            AyahRef::new(
                SurahNumber::new(1).map_err(|e| e.message())?,
                AyahNumber::new(1).map_err(|e| e.message())?,
            ),
            LanguageTag::new("id").map_err(|e| e.message())?,
        ),
    )
    .map_err(|e| e.message())?;
    assert!(matches!(out, ReadOutput::Single(_)));
    Ok(())
}

#[test]
fn daily_plan_uses_api_repo() -> Result<(), String> {
    let repo = MockRepo::default();
    let out = daily_plan(
        &repo,
        &repo,
        PlanInput {
            count: PlanCount::new(3).map_err(|e| e.message())?,
            lang: LanguageTag::new("id").map_err(|e| e.message())?,
        },
    )
    .map_err(|e| e.message())?;
    assert_eq!(out.ayahs.len(), 3);
    Ok(())
}

#[test]
fn prepare_play_returns_audio_url() -> Result<(), String> {
    let repo = MockRepo::default();
    let out = prepare_play(
        &repo,
        PlayInput {
            target: ReadTarget::Ayah(AyahRef::new(
                SurahNumber::new(1).map_err(|e| e.message())?,
                AyahNumber::new(1).map_err(|e| e.message())?,
            )),
            lang: LanguageTag::new("id").map_err(|e| e.message())?,
            qari: Some(QariId::new("05").map_err(|e| e.message())?),
            fallback_qari: QariId::new("05").map_err(|e| e.message())?,
        },
    )
    .map_err(|e| e.message())?;
    assert!(out.target_audio.is_some());
    Ok(())
}

#[test]
fn sync_skips_when_disabled() -> Result<(), String> {
    let repo = MockRepo::default();
    let gateway = MockGatewayOk;
    let input = SyncInput::new(false, false);
    assert!(input.into_runnable().is_none());

    let runnable = SyncInput::new(false, true)
        .into_runnable()
        .ok_or_else(|| "sync input should be runnable".to_string())?;
    let out = sync_content(&repo, &gateway, runnable).map_err(|e| e.message())?;

    assert!(matches!(out.status, SyncStatus::Success(_)));
    Ok(())
}

#[test]
fn sync_records_failure() -> Result<(), String> {
    let repo = MockRepo::default();
    let gateway = MockGatewayErr;
    let runnable = SyncInput::new(true, true)
        .into_runnable()
        .ok_or_else(|| "sync input should be runnable".to_string())?;
    let out = sync_content(&repo, &gateway, runnable).map_err(|e| e.message())?;

    assert!(matches!(out.status, SyncStatus::Failure(_)));
    Ok(())
}

#[test]
fn sync_failure_is_logged_with_gateway_message() -> Result<(), String> {
    let repo = MockRepo::default();
    let runnable = SyncInput::new(true, false)
        .into_runnable()
        .ok_or_else(|| "forced sync should be runnable".to_string())?;
    let out = sync_content(&repo, &MockGatewayErr, runnable).map_err(|e| e.message())?;
    match out.status {
        SyncStatus::Failure(m) => assert_eq!(m, "Sync gagal: offline"),
        other => panic!("unexpected status {other:?}"),
    }
    let logs = repo.logs.lock().map_err(|e| e.to_string())?;
    assert_eq!(logs.len(), 1);
    Ok(())
}

fn pos(surah: u16, ayah: u16) -> AyahRef {
    AyahRef::new(SurahNumber::new(surah).unwrap(), AyahNumber::new(ayah).unwrap())
}

#[test]
fn from_repo_passes_values_and_wraps_failures() {
    assert_eq!(from_repo(Ok::<usize, RepoError>(3)).ok(), Some(3));
    match from_repo(Err::<usize, RepoError>(RepoError { message: "db down".to_string() })) {
        Err(UseCaseError::Infra(e)) => assert_eq!(e.message, "db down"),
        other => panic!("unexpected: {other:?}"),
    }
}

#[test]
fn search_outcome_keeps_the_hits_in_order() {
    let hits = vec![
        SearchHit { surah_no: 2, ayah_no: 255, snippet: "kursi".to_string() },
        SearchHit { surah_no: 1, ayah_no: 1, snippet: "bismillah".to_string() },
    ];
    let out = search_outcome(Ok(hits)).unwrap();
    assert_eq!(out.hits.len(), 2);
    assert_eq!((out.hits[0].surah_no, out.hits[0].ayah_no), (2, 255));
    assert_eq!(out.hits[1].snippet, "bismillah");
    assert!(matches!(
        search_outcome(Err(RepoError { message: "offline".to_string() })),
        Err(UseCaseError::Infra(_))
    ));
}

#[test]
fn continue_target_follows_the_stored_progress() {
    assert!(matches!(continue_target(None), Err(UseCaseError::MissingProgress)));
    let t = continue_target(Some(StudyProgress { last_surah_no: 36, last_ayah_no: 12 })).unwrap();
    assert_eq!((t.surah().value(), t.ayah().value()), (36, 12));
    assert!(matches!(
        continue_target(Some(StudyProgress { last_surah_no: 115, last_ayah_no: 1 })),
        Err(UseCaseError::Domain(_))
    ));
}

#[test]
fn continue_outcome_names_the_missing_target() {
    let a = Ayah {
        surah_no: 36,
        ayah_no: 12,
        arabic_text: "x".to_string(),
        transliteration: None,
        translation: None,
        audio_url: None,
        audio_urls: QariUrls::new(),
    };
    let out = continue_outcome(pos(36, 12), Some(a)).unwrap();
    assert_eq!((out.ayah.surah_no, out.ayah.ayah_no), (36, 12));
    match continue_outcome(pos(36, 12), None) {
        Err(UseCaseError::ProgressNotFound(t)) => assert_eq!(t, pos(36, 12)),
        other => panic!("unexpected: {other:?}"),
    }
}

#[test]
fn found_ayah_and_nonempty_surah_name_what_is_missing() {
    match found_ayah(pos(2, 255), None) {
        Err(UseCaseError::AyahNotFound(t)) => assert_eq!(t, pos(2, 255)),
        other => panic!("unexpected: {other:?}"),
    }
    let s = SurahNumber::new(3).unwrap();
    match nonempty_surah(s, Vec::new()) {
        Err(UseCaseError::SurahNotFound(n)) => assert_eq!(n, s),
        other => panic!("unexpected: {other:?}"),
    }
    let a = MockRepo::default().read_ayah(pos(3, 1), &LanguageTag::new("id").unwrap()).unwrap().unwrap();
    assert_eq!(nonempty_surah(s, vec![a]).unwrap().len(), 1);
}

#[test]
fn play_outputs_resolve_the_recitation() {
    let repo = MockRepo::default();
    let a = repo.read_ayah(pos(1, 1), &LanguageTag::new("id").unwrap()).unwrap().unwrap();
    let out = play_ayah_output(a, Some(QariId::new("05").unwrap()), "05");
    assert_eq!(out.ayahs.len(), 1);
    assert_eq!(out.target_audio.as_deref(), Some("https://cdn.equran.id/audio-partial/sample.mp3"));
    let surahs = repo.list_surahs().unwrap();
    let ayahs = repo.read_surah(SurahNumber::new(2).unwrap(), &LanguageTag::new("id").unwrap()).unwrap();
    let n = ayahs.len();
    let out = play_surah_output(SurahNumber::new(2).unwrap(), ayahs, &surahs, None, "05");
    assert_eq!(out.ayahs.len(), n);
    assert_eq!(out.target_audio.as_deref(), Some("https://cdn.equran.id/audio-full/sample/002.mp3"));
    assert!(out.selected_qari.is_none());
}

#[test]
fn doctor_outcome_reports_the_store_count() {
    let input = DoctorInput {
        home: PathBuf::from("/h"),
        config_path: PathBuf::from("/h/c.toml"),
        db_path: PathBuf::from("/h/d.db"),
    };
    let out = doctor_outcome(input, true, false, Ok(4)).unwrap();
    assert_eq!(out.bookmark_count, 4);
    assert!(out.config_exists && !out.db_exists);
    assert_eq!(out.db_path, PathBuf::from("/h/d.db"));
    let input = DoctorInput { home: PathBuf::new(), config_path: PathBuf::new(), db_path: PathBuf::new() };
    assert!(matches!(
        doctor_outcome(input, true, true, Err(RepoError { message: "x".to_string() })),
        Err(UseCaseError::Infra(_))
    ));
}

#[test]
fn sync_step_and_outcome_follow_the_ping() {
    let (status, log_status, log_message) = sync_step(Ok(()));
    assert!(matches!(&status, SyncStatus::Success(m) if m == "Sync metadata berhasil"));
    assert_eq!((log_status, log_message.as_str()), ("ok", "Berhasil menghubungi equran.id API v2"));
    let (status, log_status, log_message) = sync_step(Err(RepoError { message: "timeout".to_string() }));
    assert!(matches!(&status, SyncStatus::Failure(m) if m == "Sync gagal: timeout"));
    assert_eq!((log_status, log_message.as_str()), ("error", "Sync gagal: timeout"));
    assert!(matches!(sync_outcome(status.clone(), Ok(())), Ok(out) if matches!(out.status, SyncStatus::Failure(_))));
    assert!(matches!(
        sync_outcome(status, Err(RepoError { message: "log".to_string() })),
        Err(UseCaseError::Infra(_))
    ));
}

#[test]
fn plan_keep_adds_found_ayahs_until_the_count() {
    let repo = MockRepo::default();
    let a = repo.read_ayah(pos(1, 1), &LanguageTag::new("id").unwrap()).unwrap();
    let mut out = Vec::new();
    assert!(plan_keep(&mut out, None, 1));
    assert!(out.is_empty());
    assert!(!plan_keep(&mut out, a, 1));
    assert_eq!(out.len(), 1);
}

fn numbered(ayahs: &[Ayah]) -> Vec<(u16, u16)> {
    ayahs.iter().map(|a| (a.surah_no, a.ayah_no)).collect()
}

#[test]
fn daily_plan_walks_from_the_stored_progress() {
    let repo = MockRepo::default();
    let out = daily_plan(
        &repo,
        &repo,
        PlanInput { count: PlanCount::new(3).unwrap(), lang: LanguageTag::new("id").unwrap() },
    )
    .unwrap();
    assert_eq!(numbered(&out.ayahs), vec![(1, 1), (1, 2), (1, 3)]);
}

#[test]
fn plan_walk_crosses_into_the_next_surah() {
    let repo = MockRepo::default();
    let surahs = repo.list_surahs().unwrap();
    let lang = LanguageTag::new("id").unwrap();
    let v = plan_walk(&repo, &lang, &surahs, pos(1, 6), 4).unwrap();
    assert_eq!(numbered(&v), vec![(1, 6), (1, 7), (2, 1), (2, 2)]);
    // The walk ends with the catalogue.
    let v = plan_walk(&repo, &lang, &surahs, pos(2, 285), 5).unwrap();
    assert_eq!(numbered(&v), vec![(2, 285), (2, 286)]);
}

#[test]
fn plan_for_catalogue_and_progress_edges() {
    let repo = MockRepo::default();
    let lang = LanguageTag::new("id").unwrap();
    assert!(plan_for_catalogue(&repo, &repo, &lang, &Vec::new(), 3).unwrap().is_empty());
    let surahs = repo.list_surahs().unwrap();
    let bad = Some(StudyProgress { last_surah_no: 200, last_ayah_no: 1 });
    assert!(matches!(
        plan_from_progress(&repo, &lang, &surahs, bad, 3),
        Err(UseCaseError::Domain(DomainError::InvalidSurah(200)))
    ));
    let v = plan_from_progress(&repo, &lang, &surahs, None, 2).unwrap();
    assert_eq!(numbered(&v), vec![(1, 1), (1, 2)]);
}

#[test]
fn continue_target_reports_the_surah_before_the_ayah() {
    assert!(matches!(
        continue_target(Some(StudyProgress { last_surah_no: 0, last_ayah_no: 0 })),
        Err(UseCaseError::Domain(DomainError::InvalidSurah(0)))
    ));
    assert!(matches!(
        continue_target(Some(StudyProgress { last_surah_no: 2, last_ayah_no: 300 })),
        Err(UseCaseError::Domain(DomainError::InvalidAyah(300)))
    ));
}
