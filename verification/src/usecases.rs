//! The use cases: reading, searching, playing, bookmarks, progress, the daily
//! plan, sync and diagnostics. They talk to the outside only through the
//! traits of `ports`, and state what holds of every answer those give.
use vstd::prelude::*;
use vstd::string::*;

use crate::domain::{
    domain_error_message, opt_view, resolved_url, str_opt_view, Ayah, AyahNumber, AyahRef,
    Bookmark, BookmarkId, DomainError, LanguageTag, QariId, SearchHit, StudyProgress, SurahMeta, SurahNumber,
};
use crate::dto::{
    BookmarkAddInput, ContinueInput, ContinueOutput, DoctorInput, DoctorOutput, PlanInput,
    PlanOutput, PlayInput, PlayOutput, ReadInput, ReadOutput, ReadTarget, SearchInput,
    SearchOutput, SearchScope, SyncInput, SyncOutput, SyncRunnable, SyncStatus,
};
use crate::ports::{
    BookmarkRepository, HealthRepository, ProgressRepository, QuranReadRepository, RepoError,
    SyncGateway, SyncLogRepository,
};
use crate::qari_urls::lookup;
use crate::text::{append_str, decimal, push_decimal, string_of};

verus! {

/// Why a use case did not complete.
#[derive(Debug)]
pub enum UseCaseError {
    AyahNotFound(AyahRef),
    SurahNotFound(SurahNumber),
    MissingProgress,
    ProgressNotFound(AyahRef),
    Domain(DomainError),
    Infra(RepoError),
}

pub open spec fn ref_label(r: (u16, u16)) -> Seq<char> {
    decimal(r.0 as nat) + ":"@ + decimal(r.1 as nat)
}

pub open spec fn use_case_error_message(e: UseCaseError) -> Seq<char> {
    match e {
        UseCaseError::AyahNotFound(r) => "ayat tidak ditemukan: "@ + ref_label(r@),
        UseCaseError::SurahNotFound(s) => "surah tidak ditemukan: "@ + decimal(s@ as nat),
        UseCaseError::MissingProgress => "belum ada progress. gunakan `read` atau `tui` dulu."@,
        UseCaseError::ProgressNotFound(r) => "progress terakhir tidak ditemukan di API: "@
            + ref_label(r@),
        UseCaseError::Domain(d) => domain_error_message(d),
        UseCaseError::Infra(i) => i.message@,
    }
}

impl UseCaseError {
    /// The human-readable description of the error.
    pub fn message(&self) -> (r: String)
        ensures
            r@ == use_case_error_message(*self),
    {
        match self {
            UseCaseError::AyahNotFound(r) => {
                let mut s = string_of("ayat tidak ditemukan: ");
                let l = r.label();
                append_str(&mut s, l.as_str());
                assert(s@ =~= use_case_error_message(*self));
                s
            },
            UseCaseError::SurahNotFound(n) => {
                let mut s = string_of("surah tidak ditemukan: ");
                push_decimal(&mut s, n.value() as u64);
                s
            },
            UseCaseError::MissingProgress => {
                string_of("belum ada progress. gunakan `read` atau `tui` dulu.")
            },
            UseCaseError::ProgressNotFound(r) => {
                let mut s = string_of("progress terakhir tidak ditemukan di API: ");
                let l = r.label();
                append_str(&mut s, l.as_str());
                assert(s@ =~= use_case_error_message(*self));
                s
            },
            UseCaseError::Domain(d) => d.message(),
            UseCaseError::Infra(i) => i.message.clone(),
        }
    }
}

fn infra(e: RepoError) -> (r: UseCaseError)
    ensures
        r == UseCaseError::Infra(e),
{
    UseCaseError::Infra(e)
}

fn infra_message(msg: String) -> (r: UseCaseError)
    ensures
        r matches UseCaseError::Infra(e) && e.message@ == msg@,
{
    UseCaseError::Infra(RepoError { message: msg })
}

// ---------------------------------------------------------------------------
// Positions
// ---------------------------------------------------------------------------

/// The position that a raw surah and ayah number name, when both are in range.
pub fn ayah_ref_from_raw(surah_no: u16, ayah_no: u16) -> (r: Result<AyahRef, UseCaseError>)
    ensures
        (1 <= surah_no <= 114 && 1 <= ayah_no <= 286) <==> r is Ok,
        r matches Ok(p) ==> p@ == (surah_no, ayah_no),
        r matches Err(e) ==> (e matches UseCaseError::Domain(d) && (d is InvalidSurah
            || d is InvalidAyah)),
        !(1 <= surah_no <= 114) ==> (r matches Err(UseCaseError::Domain(
            DomainError::InvalidSurah(v),
        )) && v == surah_no),
        (1 <= surah_no <= 114 && !(1 <= ayah_no <= 286)) ==> (r matches Err(
            UseCaseError::Domain(DomainError::InvalidAyah(v)),
        ) && v == ayah_no),
{
    let surah = match SurahNumber::new(surah_no) {
        Ok(s) => s,
        Err(e) => return Err(UseCaseError::Domain(e)),
    };
    let ayah = match AyahNumber::new(ayah_no) {
        Ok(a) => a,
        Err(e) => return Err(UseCaseError::Domain(e)),
    };
    Ok(AyahRef::new(surah, ayah))
}

/// The position that stored progress names.
pub fn ayah_ref_from_progress(progress: StudyProgress) -> (r: Result<AyahRef, UseCaseError>)
    ensures
        (1 <= progress.last_surah_no <= 114 && 1 <= progress.last_ayah_no <= 286) <==> r is Ok,
        r matches Ok(p) ==> p@ == (progress.last_surah_no, progress.last_ayah_no),
        r matches Err(e) ==> (e matches UseCaseError::Domain(d) && (d is InvalidSurah
            || d is InvalidAyah)),
        !(1 <= progress.last_surah_no <= 114) ==> r == Err::<AyahRef, UseCaseError>(
            UseCaseError::Domain(DomainError::InvalidSurah(progress.last_surah_no)),
        ),
        (1 <= progress.last_surah_no <= 114 && !(1 <= progress.last_ayah_no <= 286)) ==> r
            == Err::<AyahRef, UseCaseError>(
            UseCaseError::Domain(DomainError::InvalidAyah(progress.last_ayah_no)),
        ),
{
    ayah_ref_from_raw(progress.last_surah_no, progress.last_ayah_no)
}

/// The index of the first catalogue entry at or after `from` with number `no`.
pub open spec fn find_surah(s: Seq<SurahMeta>, no: u16, from: int) -> Option<int>
    decreases s.len() - from,
{
    if from < 0 || from >= s.len() {
        None
    } else if s[from].surah_no == no {
        Some(from)
    } else {
        find_surah(s, no, from + 1)
    }
}

pub proof fn lemma_find_surah_bounds(s: Seq<SurahMeta>, no: u16, from: int)
    requires
        0 <= from,
    ensures
        find_surah(s, no, from) matches Some(i) ==> from <= i < s.len() && s[i].surah_no == no,
        find_surah(s, no, from) is None ==> forall|j: int|
            from <= j < s.len() ==> s[j].surah_no != no,
    decreases s.len() - from,
{
    if from < s.len() && s[from].surah_no != no {
        lemma_find_surah_bounds(s, no, from + 1);
    }
}

fn position_of_surah(surahs: &Vec<SurahMeta>, no: u16) -> (r: Option<usize>)
    ensures
        match r {
            Some(i) => find_surah(surahs@, no, 0) == Some(i as int) && i < surahs@.len()
                && surahs@[i as int].surah_no == no,
            None => find_surah(surahs@, no, 0) is None,
        },
{
    let n = surahs.len();
    let mut i: usize = 0;
    while i < n
        invariant
            n == surahs@.len(),
            i <= n,
            find_surah(surahs@, no, 0) == find_surah(surahs@, no, i as int),
        decreases n - i,
    {
        if surahs[i].surah_no == no {
            return Some(i);
        }
        i = i + 1;
    }
    None
}

/// The first position of a plan with no progress: ayah 1 of the first
/// catalogue entry.
pub fn first_position(surahs: &Vec<SurahMeta>) -> (r: Result<AyahRef, UseCaseError>)
    ensures
        surahs@.len() == 0 ==> (r matches Err(UseCaseError::Infra(e)) && e.message@
            == "empty surah list"@),
        surahs@.len() > 0 ==> (r is Ok <==> 1 <= surahs@[0].surah_no <= 114),
        surahs@.len() > 0 ==> (r matches Ok(p) ==> p@ == (surahs@[0].surah_no, 1u16)),
        surahs@.len() > 0 && !(1 <= surahs@[0].surah_no <= 114) ==> (r matches Err(
            UseCaseError::Domain(DomainError::InvalidSurah(v)),
        ) && v == surahs@[0].surah_no),
{
    if surahs.len() == 0 {
        return Err(infra_message(string_of("empty surah list")));
    }
    let surah = match SurahNumber::new(surahs[0].surah_no) {
        Ok(s) => s,
        Err(e) => return Err(UseCaseError::Domain(e)),
    };
    let ayah = match AyahNumber::new(1) {
        Ok(a) => a,
        Err(e) => return Err(UseCaseError::Domain(e)),
    };
    Ok(AyahRef::new(surah, ayah))
}

/// The position after `position` in catalogue order: the next ayah of the
/// same surah, else ayah 1 of the next catalogue entry, else none.
pub fn next_position(surahs: &Vec<SurahMeta>, position: AyahRef) -> (r: Result<
    Option<AyahRef>,
    UseCaseError,
>)
    ensures
        find_surah(surahs@, position@.0, 0) is None ==> (r matches Err(UseCaseError::Infra(e))
            && e.message@ == "surah "@ + decimal(position@.0 as nat) + " missing from metadata"@),
        find_surah(surahs@, position@.0, 0) matches Some(i) ==> {
            let cur = surahs@[i];
            if position@.1 < cur.ayah_count {
                if position@.1 + 1 <= 286 {
                    r matches Ok(Some(p)) && p@ == (position@.0, (position@.1 + 1) as u16)
                } else {
                    r matches Err(UseCaseError::Domain(DomainError::InvalidAyah(v))) && v
                        == position@.1 + 1
                }
            } else if i + 1 < surahs@.len() {
                let no = surahs@[i + 1].surah_no;
                if 1 <= no <= 114 {
                    r matches Ok(Some(p)) && p@ == (no, 1u16)
                } else {
                    r matches Err(UseCaseError::Domain(DomainError::InvalidSurah(v))) && v == no
                }
            } else {
                r matches Ok(None)
            }
        },
{
    let surah_no = position.surah().value();
    let found = position_of_surah(surahs, surah_no);
    let idx = match found {
        Some(i) => i,
        None => {
            let mut msg = string_of("surah ");
            push_decimal(&mut msg, surah_no as u64);
            append_str(&mut msg, " missing from metadata");
            return Err(infra_message(msg));
        },
    };
    assert(idx < surahs@.len());
    proof {
        lemma_find_surah_bounds(surahs@, surah_no, 0);
    }
    let ayah_no = position.ayah().value();
    if ayah_no < surahs[idx].ayah_count {
        let next = match AyahNumber::new(ayah_no + 1) {
            Ok(a) => a,
            Err(e) => return Err(UseCaseError::Domain(e)),
        };
        return Ok(Some(AyahRef::new(position.surah(), next)));
    }
    let total = surahs.len();
    if idx + 1 < total {
        let next_surah = match SurahNumber::new(surahs[idx + 1].surah_no) {
            Ok(s) => s,
            Err(e) => return Err(UseCaseError::Domain(e)),
        };
        let first = match AyahNumber::new(1) {
            Ok(a) => a,
            Err(e) => return Err(UseCaseError::Domain(e)),
        };
        return Ok(Some(AyahRef::new(next_surah, first)));
    }
    Ok(None)
}

// ---------------------------------------------------------------------------
// Use cases
// ---------------------------------------------------------------------------

/// The ayah the content source gave for a requested position, or, where it
/// has none, an error naming the position.
pub fn found_ayah(target: AyahRef, found: Option<Ayah>) -> (r: Result<Ayah, UseCaseError>)
    ensures
        match found {
            Some(a) => r == Ok::<Ayah, UseCaseError>(a),
            None => r == Err::<Ayah, UseCaseError>(UseCaseError::AyahNotFound(target)),
        },
{
    match found {
        Some(a) => Ok(a),
        None => Err(UseCaseError::AyahNotFound(target)),
    }
}

/// The ayahs the content source gave for a requested surah, unchanged, or,
/// where it gave none, an error naming the surah.
pub fn nonempty_surah(surah: SurahNumber, ayahs: Vec<Ayah>) -> (r: Result<Vec<Ayah>, UseCaseError>)
    ensures
        ayahs@.len() == 0 ==> r == Err::<Vec<Ayah>, UseCaseError>(UseCaseError::SurahNotFound(surah)),
        ayahs@.len() > 0 ==> r == Ok::<Vec<Ayah>, UseCaseError>(ayahs),
{
    if ayahs.len() == 0 {
        Err(UseCaseError::SurahNotFound(surah))
    } else {
        Ok(ayahs)
    }
}

/// Reads one ayah or a whole surah and records the last ayah read as progress.
/// Each answer of the adapters goes through a stated step: `from_repo`, then
/// `found_ayah` (or `nonempty_surah`), then `ayah_ref_from_raw` for the
/// position stored, and `from_repo` for the store's answer.
pub fn read_quran<R, P>(read_repo: &R, progress_repo: &P, input: ReadInput) -> (r: Result<
    ReadOutput,
    UseCaseError,
>) where R: QuranReadRepository, P: ProgressRepository
    ensures
        r matches Ok(ReadOutput::Single(a)) ==> input.target is Ayah && 1 <= a.surah_no <= 114
            && 1 <= a.ayah_no <= 286,
        r matches Ok(ReadOutput::Surah(v)) ==> input.target is Surah && v@.len() > 0 && 1
            <= v@.last().surah_no <= 114 && 1 <= v@.last().ayah_no <= 286,
        r matches Err(UseCaseError::AyahNotFound(t)) ==> input.target == ReadTarget::Ayah(t),
        r matches Err(UseCaseError::SurahNotFound(s)) ==> input.target == ReadTarget::Surah(s),
        r matches Err(e) ==> (e is AyahNotFound || e is SurahNotFound || e is Domain
            || e is Infra),
        r matches Err(UseCaseError::Domain(d)) ==> (d is InvalidSurah || d is InvalidAyah),
        r matches Ok(ReadOutput::Single(a)) ==> (input.target matches ReadTarget::Ayah(t)
            && read_repo.ayah_answer(t@, input.lang@, Ok(Some(a)))
            && progress_repo.store_answer((a.surah_no, a.ayah_no), Ok(()))),
        r matches Ok(ReadOutput::Surah(v)) ==> (input.target matches ReadTarget::Surah(sn)
            && read_repo.surah_answer(sn@, input.lang@, Ok(v)) && progress_repo.store_answer(
            (v@.last().surah_no, v@.last().ayah_no),
            Ok(()),
        )),
        r matches Err(UseCaseError::AyahNotFound(t)) ==> read_repo.ayah_answer(
            t@,
            input.lang@,
            Ok(None),
        ),
        r matches Err(UseCaseError::SurahNotFound(sn)) ==> exists|v: Vec<Ayah>|
            #[trigger] read_repo.surah_answer(sn@, input.lang@, Ok(v)) && v@.len() == 0,
{
    match input.target {
        ReadTarget::Ayah(target) => {
            let found = match from_repo(read_repo.read_ayah(target, &input.lang)) {
                Ok(x) => x,
                Err(e) => return Err(e),
            };
            let ayah = match found_ayah(target, found) {
                Ok(a) => a,
                Err(e) => return Err(e),
            };
            let pos = match ayah_ref_from_raw(ayah.surah_no, ayah.ayah_no) {
                Ok(p) => p,
                Err(e) => return Err(e),
            };
            match from_repo(progress_repo.set_progress(pos)) {
                Ok(()) => {},
                Err(e) => return Err(e),
            }
            Ok(ReadOutput::Single(ayah))
        },
        ReadTarget::Surah(surah) => {
            let read = match from_repo(read_repo.read_surah(surah, &input.lang)) {
                Ok(x) => x,
                Err(e) => return Err(e),
            };
            let ghost answer = read;
            proof {
                assert(read_repo.surah_answer(surah@, input.lang@, Ok(answer)));
            }
            let ayahs = match nonempty_surah(surah, read) {
                Ok(v) => v,
                Err(e) => {
                    proof {
                        assert(answer@.len() == 0);
                    }
                    return Err(e);
                },
            };
            let last = ayahs.len() - 1;
            let pos = match ayah_ref_from_raw(ayahs[last].surah_no, ayahs[last].ayah_no) {
                Ok(p) => p,
                Err(e) => return Err(e),
            };
            match from_repo(progress_repo.set_progress(pos)) {
                Ok(()) => {},
                Err(e) => return Err(e),
            }
            Ok(ReadOutput::Surah(ayahs))
        },
    }
}

/// Which texts a search scope asks the content source to look in:
/// (Arabic text, translation).
pub open spec fn scope_flags_of(scope: SearchScope) -> (bool, bool) {
    match scope {
        SearchScope::Quran => (true, false),
        SearchScope::Translation => (false, true),
        SearchScope::All => (true, true),
    }
}

/// A scope searches the Arabic text unless it names the translation only,
/// and the translation unless it names the Arabic text only.
pub proof fn lemma_scope_flags(scope: SearchScope)
    ensures
        scope_flags_of(scope).0 <==> scope != SearchScope::Translation,
        scope_flags_of(scope).1 <==> scope != SearchScope::Quran,
{
}

pub fn scope_flags(scope: SearchScope) -> (r: (bool, bool))
    ensures
        r == scope_flags_of(scope),
{
    match scope {
        SearchScope::Quran => (true, false),
        SearchScope::Translation => (false, true),
        SearchScope::All => (true, true),
    }
}

/// What a use case answers for an adapter's answer that it passes on: the
/// value itself, or the adapter's failure as an infrastructure error.
pub fn from_repo<T>(res: Result<T, RepoError>) -> (r: Result<T, UseCaseError>)
    ensures
        match res {
            Ok(v) => r == Ok::<T, UseCaseError>(v),
            Err(e) => r == Err::<T, UseCaseError>(UseCaseError::Infra(e)),
        },
{
    match res {
        Ok(v) => Ok(v),
        Err(e) => Err(infra(e)),
    }
}

/// The search's answer for the content source's answer: its hits, in its
/// order, or its failure as an infrastructure error.
pub fn search_outcome(res: Result<Vec<SearchHit>, RepoError>) -> (r: Result<SearchOutput, UseCaseError>)
    ensures
        match res {
            Ok(hits) => r matches Ok(out) && out.hits == hits,
            Err(e) => r == Err::<SearchOutput, UseCaseError>(UseCaseError::Infra(e)),
        },
{
    match res {
        Ok(hits) => Ok(SearchOutput { hits }),
        Err(e) => Err(infra(e)),
    }
}

/// Searches the content source in the texts that the scope names (see
/// `scope_flags`) and answers as `search_outcome` says for what comes back.
pub fn search_quran<R>(repo: &R, input: SearchInput) -> (r: Result<SearchOutput, UseCaseError>) where
    R: QuranReadRepository
    ensures
        r matches Err(e) ==> e is Infra,
        r matches Ok(out) ==> repo.search_answer(
            input.query@,
            scope_flags_of(input.scope).0,
            scope_flags_of(input.scope).1,
            input.limit@,
            Ok(out.hits),
        ),
        r matches Err(UseCaseError::Infra(e)) ==> repo.search_answer(
            input.query@,
            scope_flags_of(input.scope).0,
            scope_flags_of(input.scope).1,
            input.limit@,
            Err(e),
        ),
{
    let (search_quran, search_translation) = scope_flags(input.scope);
    let res = repo.search(input.query.as_str(), search_quran, search_translation, input.limit);
    let ghost answer = res;
    let r = search_outcome(res);
    proof {
        if let Ok(h) = answer {
        }
    }
    r
}

pub open spec fn qari_opt_view(q: Option<crate::domain::QariId>) -> Option<Seq<char>> {
    match q {
        Some(x) => Some(x@),
        None => None,
    }
}

/// The full-surah recitation URL that the catalogue gives for surah `no`:
/// the first catalogue entry with that number, resolved for the qari.
pub open spec fn surah_audio_spec(
    surahs: Seq<SurahMeta>,
    no: u16,
    selected: Option<Seq<char>>,
    fallback: Seq<char>,
) -> Option<Seq<char>> {
    match find_surah(surahs, no, 0) {
        Some(i) => resolved_url(
            surahs[i].audio_full_urls@,
            selected,
            Some(fallback),
            opt_view(surahs[i].audio_full),
        ),
        None => None,
    }
}

pub fn surah_audio_url(
    surahs: &Vec<SurahMeta>,
    no: u16,
    selected_qari: Option<&str>,
    fallback_qari: &str,
) -> (r: Option<String>)
    ensures
        opt_view(r) == surah_audio_spec(surahs@, no, str_opt_view(selected_qari), fallback_qari@),
{
    match position_of_surah(surahs, no) {
        Some(i) => surahs[i].resolve_audio_full_url(selected_qari, fallback_qari),
        None => None,
    }
}

/// What is played for one ayah: that ayah alone, its recitation URL for
/// the chosen qari (else the fallback), and the chosen qari.
pub fn play_ayah_output(ayah: Ayah, selected_qari: Option<QariId>, fallback_qari: &str) -> (r:
    PlayOutput)
    ensures
        r.ayahs@ == seq![ayah],
        opt_view(r.target_audio) == resolved_url(
            ayah.audio_urls@,
            qari_opt_view(selected_qari),
            Some(fallback_qari@),
            opt_view(ayah.audio_url),
        ),
        qari_opt_view(r.selected_qari) == qari_opt_view(selected_qari),
{
    let selected_str: Option<&str> = match &selected_qari {
        Some(q) => Some(q.as_str()),
        None => None,
    };
    let target_audio = ayah.resolve_audio_url(selected_str, fallback_qari);
    let mut ayahs = Vec::new();
    ayahs.push(ayah);
    PlayOutput { ayahs, target_audio, selected_qari }
}

/// What is played for a surah: its ayahs unchanged, the full-surah URL that
/// the catalogue gives for it (`surah_audio_spec`), and the chosen qari.
pub fn play_surah_output(
    surah: SurahNumber,
    ayahs: Vec<Ayah>,
    surahs: &Vec<SurahMeta>,
    selected_qari: Option<QariId>,
    fallback_qari: &str,
) -> (r: PlayOutput)
    ensures
        r.ayahs@ == ayahs@,
        opt_view(r.target_audio) == surah_audio_spec(
            surahs@,
            surah@,
            qari_opt_view(selected_qari),
            fallback_qari@,
        ),
        qari_opt_view(r.selected_qari) == qari_opt_view(selected_qari),
{
    let selected_str: Option<&str> = match &selected_qari {
        Some(q) => Some(q.as_str()),
        None => None,
    };
    let target_audio = surah_audio_url(surahs, surah.value(), selected_str, fallback_qari);
    PlayOutput { ayahs, target_audio, selected_qari }
}

/// Whole-surah playback prefers the chosen qari: where the catalogue entry
/// of the surah lists a recitation by the selected qari, that recitation is
/// the one played, whatever the fallback.
pub proof fn lemma_surah_audio_prefers_selected(
    surahs: Seq<SurahMeta>,
    no: u16,
    selected: Seq<char>,
    fallback: Seq<char>,
)
    requires
        find_surah(surahs, no, 0) matches Some(i) && lookup(
            surahs[i].audio_full_urls@,
            selected,
        ) is Some,
    ensures
        surah_audio_spec(surahs, no, Some(selected), fallback) == lookup(
            surahs[find_surah(surahs, no, 0)->Some_0].audio_full_urls@,
            selected,
        ),
{
}

/// Fetches what is to be played and the URL of its recitation. The adapters'
/// answers go through `from_repo`, then `found_ayah` and `play_ayah_output`
/// for an ayah, or `nonempty_surah` and `play_surah_output` for a surah.
pub fn prepare_play<R>(repo: &R, input: PlayInput) -> (r: Result<PlayOutput, UseCaseError>) where
    R: QuranReadRepository
    ensures
        r matches Ok(out) ==> qari_opt_view(out.selected_qari) == qari_opt_view(input.qari),
        r matches Ok(out) ==> out.ayahs@.len() > 0,
        r matches Ok(out) ==> (input.target is Ayah ==> out.ayahs@.len() == 1 && opt_view(
            out.target_audio,
        ) == resolved_url(
            out.ayahs@[0].audio_urls@,
            qari_opt_view(input.qari),
            Some(input.fallback_qari@),
            opt_view(out.ayahs@[0].audio_url),
        )),
        r matches Err(UseCaseError::AyahNotFound(t)) ==> input.target == ReadTarget::Ayah(t),
        r matches Err(UseCaseError::SurahNotFound(s)) ==> input.target == ReadTarget::Surah(s),
        r matches Err(e) ==> (e is AyahNotFound || e is SurahNotFound || e is Infra),
        r matches Ok(out) ==> (input.target matches ReadTarget::Ayah(t) ==> exists|a: Ayah|
            #[trigger] repo.ayah_answer(t@, input.lang@, Ok(Some(a))) && out.ayahs@ == seq![a]),
        r matches Ok(out) ==> (input.target matches ReadTarget::Surah(sn) ==> exists|v: Vec<Ayah>|
            #[trigger] repo.surah_answer(sn@, input.lang@, Ok(v)) && out.ayahs@ == v@),
        r matches Ok(out) ==> (input.target matches ReadTarget::Surah(sn) ==> exists|
            cat: Vec<SurahMeta>,
        |
            #[trigger] repo.catalogue_answer(Ok(cat)) && opt_view(out.target_audio)
                == surah_audio_spec(cat@, sn@, qari_opt_view(input.qari), input.fallback_qari@)),
{
    match input.target {
        ReadTarget::Ayah(target) => {
            let found = match from_repo(repo.read_ayah(target, &input.lang)) {
                Ok(x) => x,
                Err(e) => return Err(e),
            };
            let ayah = match found_ayah(target, found) {
                Ok(a) => a,
                Err(e) => return Err(e),
            };
            let ghost a = ayah;
            let out = play_ayah_output(ayah, input.qari, input.fallback_qari.as_str());
            proof {
                assert(repo.ayah_answer(target@, input.lang@, Ok(Some(a))));
            }
            Ok(out)
        },
        ReadTarget::Surah(surah) => {
            let read = match from_repo(repo.read_surah(surah, &input.lang)) {
                Ok(x) => x,
                Err(e) => return Err(e),
            };
            let ayahs = match nonempty_surah(surah, read) {
                Ok(v) => v,
                Err(e) => return Err(e),
            };
            let surahs = match from_repo(repo.list_surahs()) {
                Ok(x) => x,
                Err(e) => return Err(e),
            };
            let ghost v = ayahs;
            let ghost cat = surahs;
            let out = play_surah_output(surah, ayahs, &surahs, input.qari, input.fallback_qari.as_str());
            proof {
                assert(repo.surah_answer(surah@, input.lang@, Ok(v)));
                assert(repo.catalogue_answer(Ok(cat)));
            }
            Ok(out)
        },
    }
}

/// Stores a bookmark; the id the store gives is passed on as `from_repo`
/// says.
pub fn add_bookmark<R>(repo: &R, input: BookmarkAddInput) -> (r: Result<BookmarkId, UseCaseError>) where
    R: BookmarkRepository
    ensures
        r matches Err(e) ==> e is Infra,
        r matches Ok(id) ==> repo.add_answer(input.target@, opt_view(input.note), Ok(id)),
        r matches Err(UseCaseError::Infra(e)) ==> repo.add_answer(
            input.target@,
            opt_view(input.note),
            Err(e),
        ),
{
    let note: Option<&str> = match &input.note {
        Some(n) => Some(n.as_str()),
        None => None,
    };
    proof {
        assert(match note {
            Some(n) => Some(n@),
            None => None::<Seq<char>>,
        } == opt_view(input.note));
    }
    from_repo(repo.add_bookmark(input.target, note))
}

/// The store's bookmarks, passed on as `from_repo` says.
pub fn list_bookmarks<R>(repo: &R) -> (r: Result<Vec<Bookmark>, UseCaseError>) where
    R: BookmarkRepository
    ensures
        r matches Err(e) ==> e is Infra,
        r matches Ok(v) ==> repo.list_answer(Ok(v)),
        r matches Err(UseCaseError::Infra(e)) ==> repo.list_answer(Err(e)),
{
    from_repo(repo.list_bookmarks())
}

/// Removes a bookmark from the store; the number removed is passed on as
/// `from_repo` says.
pub fn remove_bookmark<R>(repo: &R, bookmark_id: BookmarkId) -> (r: Result<usize, UseCaseError>) where
    R: BookmarkRepository
    ensures
        r matches Err(e) ==> e is Infra,
        r matches Ok(n) ==> repo.removal_answer(bookmark_id@, Ok(n)),
        r matches Err(UseCaseError::Infra(e)) ==> repo.removal_answer(bookmark_id@, Err(e)),
{
    from_repo(repo.remove_bookmark(bookmark_id))
}

/// Where reading continues for the stored progress: its position, when it
/// names one in range; no progress at all is its own error.
pub fn continue_target(stored: Option<StudyProgress>) -> (r: Result<AyahRef, UseCaseError>)
    ensures
        stored is None ==> r == Err::<AyahRef, UseCaseError>(UseCaseError::MissingProgress),
        stored matches Some(p) ==> ((r is Ok <==> (1 <= p.last_surah_no <= 114 && 1
            <= p.last_ayah_no <= 286)) && (r matches Ok(q) ==> q@ == (
            p.last_surah_no,
            p.last_ayah_no,
        )) && (r matches Err(e) ==> (e matches UseCaseError::Domain(d) && (d is InvalidSurah
            || d is InvalidAyah)))),
        stored matches Some(p) ==> (!(1 <= p.last_surah_no <= 114) ==> r == Err::<
            AyahRef,
            UseCaseError,
        >(UseCaseError::Domain(DomainError::InvalidSurah(p.last_surah_no)))),
        stored matches Some(p) ==> ((1 <= p.last_surah_no <= 114 && !(1 <= p.last_ayah_no
            <= 286)) ==> r == Err::<AyahRef, UseCaseError>(
            UseCaseError::Domain(DomainError::InvalidAyah(p.last_ayah_no)),
        )),
{
    match stored {
        Some(p) => ayah_ref_from_progress(p),
        None => Err(UseCaseError::MissingProgress),
    }
}

/// What continuing answers for the content source's ayah at the target: the
/// ayah, or, where there is none, an error naming the target.
pub fn continue_outcome(target: AyahRef, found: Option<Ayah>) -> (r: Result<ContinueOutput, UseCaseError>)
    ensures
        match found {
            Some(a) => r matches Ok(out) && out.ayah == a,
            None => r == Err::<ContinueOutput, UseCaseError>(UseCaseError::ProgressNotFound(target)),
        },
{
    match found {
        Some(ayah) => Ok(ContinueOutput { ayah }),
        None => Err(UseCaseError::ProgressNotFound(target)),
    }
}

/// Reads the ayah at the stored progress: the target is what
/// `continue_target` gives for the stored progress, and the answer what
/// `continue_outcome` gives for the content source's ayah there.
pub fn continue_reading<R, P>(read_repo: &R, progress_repo: &P, input: ContinueInput) -> (r: Result<
    ContinueOutput,
    UseCaseError,
>) where R: QuranReadRepository, P: ProgressRepository
    ensures
        r matches Err(e) ==> (e is MissingProgress || e is ProgressNotFound || e is Domain
            || e is Infra),
        r matches Err(UseCaseError::Domain(d)) ==> (d is InvalidSurah || d is InvalidAyah),
        r matches Ok(out) ==> exists|p: StudyProgress|
            #[trigger] progress_repo.progress_answer(Ok(Some(p))) && read_repo.ayah_answer(
                (p.last_surah_no, p.last_ayah_no),
                input.lang@,
                Ok(Some(out.ayah)),
            ),
        r matches Err(UseCaseError::MissingProgress) ==> progress_repo.progress_answer(Ok(None)),
        r matches Err(UseCaseError::ProgressNotFound(t)) ==> progress_repo.progress_answer(
            Ok(Some((StudyProgress { last_surah_no: t@.0, last_ayah_no: t@.1 }))),
        ) && read_repo.ayah_answer(t@, input.lang@, Ok(None)),
{
    let stored = match progress_repo.get_progress() {
        Ok(x) => x,
        Err(e) => return Err(infra(e)),
    };
    let target = match continue_target(stored) {
        Ok(t) => t,
        Err(e) => return Err(e),
    };
    let found = match read_repo.read_ayah(target, &input.lang) {
        Ok(x) => x,
        Err(e) => return Err(infra(e)),
    };
    let r = continue_outcome(target, found);
    proof {
        let p = stored->Some_0;
        assert(p == (StudyProgress { last_surah_no: target@.0, last_ayah_no: target@.1 }));
        assert(progress_repo.progress_answer(Ok(Some(p))));
    }
    r
}

/// Where a plan starts: the stored progress, else ayah 1 of the first
/// catalogue entry.
pub fn plan_start(stored: Option<StudyProgress>, surahs: &Vec<SurahMeta>) -> (r: Result<
    AyahRef,
    UseCaseError,
>)
    ensures
        stored matches Some(p) ==> ((r is Ok <==> (1 <= p.last_surah_no <= 114 && 1
            <= p.last_ayah_no <= 286)) && (r matches Ok(q) ==> q@ == (
            p.last_surah_no,
            p.last_ayah_no,
        ))),
        stored is None && surahs@.len() > 0 ==> ((r is Ok <==> 1 <= surahs@[0].surah_no <= 114)
            && (r matches Ok(q) ==> q@ == (surahs@[0].surah_no, 1u16))),
        stored is None && surahs@.len() == 0 ==> r is Err,
        r matches Err(e) ==> (e is Domain || e is Infra),
{
    match stored {
        Some(progress) => ayah_ref_from_progress(progress),
        None => first_position(surahs),
    }
}

/// The position after `p` in catalogue order, as `next_position` finds it:
/// `None` where it fails, `Some(None)` at the end of the catalogue.
pub open spec fn next_pos(s: Seq<SurahMeta>, p: (u16, u16)) -> Option<Option<(u16, u16)>> {
    match find_surah(s, p.0, 0) {
        None => None,
        Some(i) => if p.1 < s[i].ayah_count {
            if p.1 + 1 <= 286 {
                Some(Some((p.0, (p.1 + 1) as u16)))
            } else {
                None
            }
        } else if i + 1 < s.len() {
            if 1 <= s[i + 1].surah_no <= 114 {
                Some(Some((s[i + 1].surah_no, 1u16)))
            } else {
                None
            }
        } else {
            Some(None)
        },
    }
}

/// The `i`-th position of the walk from `start` (`None` once it ended or
/// failed).
pub open spec fn walk(s: Seq<SurahMeta>, start: (u16, u16), i: nat) -> Option<(u16, u16)>
    decreases i,
{
    if i == 0 {
        Some(start)
    } else {
        match walk(s, start, (i - 1) as nat) {
            Some(p) => match next_pos(s, p) {
                Some(Some(q)) => Some(q),
                _ => None,
            },
            None => None,
        }
    }
}

/// The `i`-th read of the walk was made at a position, and the step after
/// it did not fail.
pub open spec fn step_ok(s: Seq<SurahMeta>, start: (u16, u16), i: int) -> bool {
    walk(s, start, i as nat) matches Some(p) && next_pos(s, p) is Some
}

/// The ayahs among the answers, in order.
pub open spec fn kept(answers: Seq<Option<Ayah>>) -> Seq<Ayah>
    decreases answers.len(),
{
    if answers.len() == 0 {
        seq![]
    } else {
        match answers.last() {
            Some(a) => kept(answers.drop_last()).push(a),
            None => kept(answers.drop_last()),
        }
    }
}

/// `answers` are the content source's answers along the walk from `start`,
/// one read per position: a read is made while the plan has fewer than
/// `count` ayahs, fewer than 10 000 reads were made and the walk has not
/// ended; every step after a read succeeded.
pub open spec fn plan_run(
    s: Seq<SurahMeta>,
    start: (u16, u16),
    answers: Seq<Option<Ayah>>,
    count: nat,
) -> bool {
    let n = answers.len();
    &&& n <= 10_000
    &&& forall|i: int| 0 <= i < n ==> #[trigger] kept(answers.take(i)).len() < count
    &&& forall|i: int| 0 <= i < n ==> #[trigger] step_ok(s, start, i)
    &&& (n == 10_000 || kept(answers).len() >= count || (n > 0 && walk(s, start, n) is None))
}

/// One read of the plan: the ayah the content source gave at the cursor,
/// if any, joins the plan; the answer says whether the plan still has fewer
/// than `count` ayahs.
pub fn plan_keep(out: &mut Vec<Ayah>, found: Option<Ayah>, count: usize) -> (more: bool)
    ensures
        final(out)@ == match found {
            Some(a) => old(out)@.push(a),
            None => old(out)@,
        },
        more == (final(out)@.len() < count),
{
    if let Some(ayah) = found {
        out.push(ayah);
    }
    out.len() < count
}

/// Each answer of a run is what the content source answered when asked for
/// the ayah at the walk's position.
pub open spec fn answered_along<R: QuranReadRepository>(
    repo: &R,
    s: Seq<SurahMeta>,
    start: (u16, u16),
    lang: Seq<char>,
    answers: Seq<Option<Ayah>>,
) -> bool {
    forall|i: int| 0 <= i < answers.len() ==> #[trigger] answer_at(repo, s, start, lang, answers, i)
}

/// The `i`-th answer is what the source answered for the walk's `i`-th
/// position.
pub open spec fn answer_at<R: QuranReadRepository>(
    repo: &R,
    s: Seq<SurahMeta>,
    start: (u16, u16),
    lang: Seq<char>,
    answers: Seq<Option<Ayah>>,
    i: int,
) -> bool {
    match walk(s, start, i as nat) {
        Some(p) => repo.ayah_answer(p, lang, Ok(answers[i])),
        None => false,
    }
}

proof fn lemma_answered_push<R: QuranReadRepository>(
    repo: &R,
    s: Seq<SurahMeta>,
    start: (u16, u16),
    lang: Seq<char>,
    answers: Seq<Option<Ayah>>,
    found: Option<Ayah>,
    at: (u16, u16),
)
    requires
        answered_along(repo, s, start, lang, answers),
        walk(s, start, answers.len()) == Some(at),
        repo.ayah_answer(at, lang, Ok(found)),
    ensures
        answered_along(repo, s, start, lang, answers.push(found)),
{
    let next = answers.push(found);
    assert forall|i: int| 0 <= i < next.len() implies #[trigger] answer_at(
        repo,
        s,
        start,
        lang,
        next,
        i,
    ) by {
        if i < answers.len() {
            assert(next[i] == answers[i]);
            assert(answer_at(repo, s, start, lang, answers, i));
        }
    }
}

/// `v` is a plan read from `repo` from `start`: the ayahs found along a run
/// whose answers are the source's answers at the walk's positions.
pub open spec fn plan_of<R: QuranReadRepository>(
    repo: &R,
    s: Seq<SurahMeta>,
    start: (u16, u16),
    lang: Seq<char>,
    count: nat,
    v: Seq<Ayah>,
) -> bool {
    exists|answers: Seq<Option<Ayah>>|
        #![trigger kept(answers)]
        plan_run(s, start, answers, count) && answered_along(repo, s, start, lang, answers) && v
            == kept(answers)
}

pub proof fn lemma_kept_append(a: Seq<Option<Ayah>>, b: Seq<Option<Ayah>>)
    ensures
        kept(a + b) == kept(a) + kept(b),
    decreases b.len(),
{
    if b.len() == 0 {
        assert(a + b =~= a);
        assert(kept(b) =~= seq![]);
        assert(kept(a) + kept(b) =~= kept(a));
    } else {
        lemma_kept_append(a, b.drop_last());
        assert((a + b).drop_last() =~= a + b.drop_last());
        assert((a + b).last() == b.last());
        match b.last() {
            Some(x) => {
                assert(kept(a) + kept(b) =~= (kept(a) + kept(b.drop_last())).push(x));
            },
            None => {},
        }
    }
}

/// A plan begins where it starts: the first read asks the source for the
/// ayah at the start, and when the source has one, the plan's first ayah is
/// that answer.
pub proof fn lemma_plan_begins_at_start<R: QuranReadRepository>(
    repo: &R,
    s: Seq<SurahMeta>,
    start: (u16, u16),
    lang: Seq<char>,
    count: nat,
    v: Seq<Ayah>,
)
    requires
        plan_of(repo, s, start, lang, count, v),
        count > 0,
    ensures
        exists|first: Option<Ayah>|
            #[trigger] repo.ayah_answer(start, lang, Ok(first)) && (first matches Some(a) ==> v.len()
                > 0 && v[0] == a),
{
    let answers = choose|answers: Seq<Option<Ayah>>|
        #![trigger kept(answers)]
        plan_run(s, start, answers, count) && answered_along(repo, s, start, lang, answers) && v
            == kept(answers);
    assert(answers.len() > 0) by {
        if answers.len() == 0 {
            assert(kept(answers) =~= seq![]);
        }
    }
    let first = answers[0];
    assert(walk(s, start, 0) == Some(start));
    assert(answer_at(repo, s, start, lang, answers, 0));
    assert(repo.ayah_answer(start, lang, Ok(first)));
    lemma_kept_append(answers.take(1), answers.skip(1));
    assert(answers.take(1) + answers.skip(1) =~= answers);
    assert(answers.take(1).drop_last() =~= Seq::<Option<Ayah>>::empty());
    assert(kept(Seq::<Option<Ayah>>::empty()) =~= seq![]);
}

/// Walks the catalogue from `start`, reading the ayah at each position, and
/// keeps the ayahs found: the plan is the ayahs among the answers of a run
/// as `plan_run` describes it.
pub fn plan_walk<R: QuranReadRepository>(
    read_repo: &R,
    lang: &LanguageTag,
    surahs: &Vec<SurahMeta>,
    start: AyahRef,
    count: usize,
) -> (r: Result<Vec<Ayah>, UseCaseError>)
    ensures
        r matches Ok(v) ==> exists|answers: Seq<Option<Ayah>>|
            plan_run(surahs@, start@, answers, count as nat) && v@ == kept(answers),
        r matches Ok(v) ==> plan_of(read_repo, surahs@, start@, lang@, count as nat, v@),
        r matches Err(e) ==> (e is Domain || e is Infra),
{
    let ghost s = surahs@;
    let ghost st = start@;
    let ghost mut answers: Seq<Option<Ayah>> = Seq::empty();
    let mut out: Vec<Ayah> = Vec::new();
    let mut cursor = start;
    let mut guard: usize = 0;
    let mut more = out.len() < count;
    let mut ended = false;
    while more && guard < 10_000 && !ended
        invariant
            s == surahs@,
            st == start@,
            guard == answers.len(),
            guard <= 10_000,
            out@ == kept(answers),
            more == (kept(answers).len() < count),
            forall|i: int| 0 <= i < guard ==> #[trigger] kept(answers.take(i)).len() < count,
            forall|i: int| 0 <= i < guard ==> #[trigger] step_ok(s, st, i),
            !ended ==> walk(s, st, guard as nat) == Some(cursor@),
            ended ==> guard > 0 && walk(s, st, guard as nat) is None,
            answered_along(read_repo, s, st, lang@, answers),
        decreases 10_000 - guard,
    {
        let ghost at = cursor@;
        let found = match from_repo(read_repo.read_ayah(cursor, lang)) {
            Ok(x) => x,
            Err(e) => return Err(e),
        };
        let ghost before = answers;
        proof {
            answers = answers.push(found);
            assert(answers.drop_last() =~= before);
            assert(read_repo.ayah_answer(at, lang@, Ok(found)));
            lemma_answered_push(read_repo, s, st, lang@, before, found, at);
            assert forall|i: int| 0 <= i < guard + 1 implies #[trigger] kept(answers.take(i)).len()
                < count by {
                if i < guard {
                    assert(answers.take(i) =~= before.take(i));
                } else {
                    assert(answers.take(i) =~= before);
                }
            }
        }
        more = plan_keep(&mut out, found, count);
        let step = next_position(surahs, cursor);
        proof {
            reveal_with_fuel(walk, 2);
        }
        match step {
            Ok(Some(next)) => {
                cursor = next;
            },
            Ok(None) => {
                ended = true;
            },
            Err(e) => return Err(e),
        }
        proof {
            assert(step_ok(s, st, guard as int));
        }
        guard = guard + 1;
    }
    proof {
        assert(plan_run(s, st, answers, count as nat));
        assert(plan_of(read_repo, s, st, lang@, count as nat, out@));
    }
    Ok(out)
}

/// Where the plan starts, as `plan_start` gives it: the stored position,
/// else ayah 1 of the first catalogue entry.
pub open spec fn plan_start_pos(stored: Option<StudyProgress>, s: Seq<SurahMeta>) -> (u16, u16) {
    match stored {
        Some(p) => (p.last_surah_no, p.last_ayah_no),
        None => (s[0].surah_no, 1u16),
    }
}

/// The plan for a non-empty catalogue and the stored progress: refused
/// where `plan_start` refuses the start, else the walk from the start.
pub fn plan_from_progress<R: QuranReadRepository>(
    read_repo: &R,
    lang: &LanguageTag,
    surahs: &Vec<SurahMeta>,
    stored: Option<StudyProgress>,
    count: usize,
) -> (r: Result<Vec<Ayah>, UseCaseError>)
    requires
        surahs@.len() > 0,
    ensures
        (stored matches Some(p) && !(1 <= p.last_surah_no <= 114 && 1 <= p.last_ayah_no <= 286))
            ==> r is Err,
        (stored is None && !(1 <= surahs@[0].surah_no <= 114)) ==> r is Err,
        r matches Ok(v) ==> exists|answers: Seq<Option<Ayah>>|
            plan_run(surahs@, plan_start_pos(stored, surahs@), answers, count as nat) && v@
                == kept(answers),
        r matches Ok(v) ==> plan_of(
            read_repo,
            surahs@,
            plan_start_pos(stored, surahs@),
            lang@,
            count as nat,
            v@,
        ),
        r matches Err(e) ==> (e is Domain || e is Infra),
{
    let start = match plan_start(stored, surahs) {
        Ok(p) => p,
        Err(e) => return Err(e),
    };
    plan_walk(read_repo, lang, surahs, start, count)
}

/// The plan for the catalogue the content source gave: empty for an empty
/// catalogue (the progress is then not read), else as
/// `plan_from_progress` gives it for the stored progress.
pub fn plan_for_catalogue<R: QuranReadRepository, P: ProgressRepository>(
    read_repo: &R,
    progress_repo: &P,
    lang: &LanguageTag,
    surahs: &Vec<SurahMeta>,
    count: usize,
) -> (r: Result<Vec<Ayah>, UseCaseError>)
    ensures
        surahs@.len() == 0 ==> (r matches Ok(v) && v@.len() == 0),
        r matches Ok(v) ==> v@.len() <= count,
        r matches Err(e) ==> (e is Domain || e is Infra),
        surahs@.len() > 0 ==> (r matches Ok(v) ==> exists|stored: Option<StudyProgress>|
            #[trigger] progress_repo.progress_answer(Ok(stored)) && plan_of(
                read_repo,
                surahs@,
                plan_start_pos(stored, surahs@),
                lang@,
                count as nat,
                v@,
            )),
{
    if surahs.len() == 0 {
        return Ok(Vec::new());
    }
    let stored = match from_repo(progress_repo.get_progress()) {
        Ok(x) => x,
        Err(e) => return Err(e),
    };
    let r = plan_from_progress(read_repo, lang, surahs, stored, count);
    proof {
        if r is Ok {
            let answers = choose|answers: Seq<Option<Ayah>>|
                plan_run(surahs@, plan_start_pos(stored, surahs@), answers, count as nat)
                    && r->Ok_0@ == kept(answers);
            lemma_plan_within_count(surahs@, plan_start_pos(stored, surahs@), answers, count as nat);
            assert(progress_repo.progress_answer(Ok(stored)));
        }
    }
    r
}

/// A plan never holds more than `count` ayahs.
pub proof fn lemma_plan_within_count(
    s: Seq<SurahMeta>,
    start: (u16, u16),
    answers: Seq<Option<Ayah>>,
    count: nat,
)
    requires
        plan_run(s, start, answers, count),
    ensures
        kept(answers).len() <= count,
{
    let n = answers.len();
    if n > 0 {
        assert(kept(answers.take(n - 1)).len() < count);
        assert(answers.take(n - 1) =~= answers.drop_last());
    }
}

/// The next `count` ayahs from the stored progress (or from the start of the
/// catalogue), walking positions in catalogue order for at most 10 000 steps,
/// as `plan_for_catalogue` gives them for the catalogue read.
pub fn daily_plan<R, P>(read_repo: &R, progress_repo: &P, input: PlanInput) -> (r: Result<
    PlanOutput,
    UseCaseError,
>) where R: QuranReadRepository, P: ProgressRepository
    ensures
        r matches Ok(out) ==> out.ayahs@.len() <= input.count@,
        r matches Err(e) ==> (e is Domain || e is Infra),
        r matches Ok(out) ==> exists|cat: Vec<SurahMeta>|
            #[trigger] read_repo.catalogue_answer(Ok(cat)) && (cat@.len() == 0
                ==> out.ayahs@.len() == 0) && (cat@.len() > 0 ==> exists|stored: Option<StudyProgress>|
                #[trigger] progress_repo.progress_answer(Ok(stored)) && plan_of(
                read_repo,
                cat@,
                plan_start_pos(stored, cat@),
                input.lang@,
                input.count@ as nat,
                out.ayahs@,
            )),
{
    let surahs = match from_repo(read_repo.list_surahs()) {
        Ok(x) => x,
        Err(e) => return Err(e),
    };
    let count = input.count.value();
    match plan_for_catalogue(read_repo, progress_repo, &input.lang, &surahs, count) {
        Ok(ayahs) => {
            proof {
                assert(read_repo.catalogue_answer(Ok(surahs)));
            }
            Ok(PlanOutput { ayahs })
        },
        Err(e) => Err(e),
    }
}

/// The health report for the store's bookmark count: the paths as given,
/// the existence flags as given and the count the store gave, or the store's
/// failure as an infrastructure error.
pub fn doctor_outcome(
    input: DoctorInput,
    config_exists: bool,
    db_exists: bool,
    count: Result<i64, RepoError>,
) -> (r: Result<DoctorOutput, UseCaseError>)
    ensures
        match count {
            Ok(n) => r matches Ok(out) && out.home == input.home && out.config_path
                == input.config_path && out.db_path == input.db_path && out.config_exists
                == config_exists && out.db_exists == db_exists && out.bookmark_count == n,
            Err(e) => r == Err::<DoctorOutput, UseCaseError>(UseCaseError::Infra(e)),
        },
{
    match count {
        Ok(bookmark_count) => Ok(
            DoctorOutput {
                home: input.home,
                config_path: input.config_path,
                db_path: input.db_path,
                config_exists,
                db_exists,
                bookmark_count,
            },
        ),
        Err(e) => Err(infra(e)),
    }
}

/// The health report: the paths as given, whether the configuration and the
/// database exist (as probed by the caller), and the number of bookmarks.
pub fn doctor_report<R>(repo: &R, input: DoctorInput, config_exists: bool, db_exists: bool) -> (r:
    Result<DoctorOutput, UseCaseError>) where R: HealthRepository
    ensures
        r matches Ok(out) ==> out.home == input.home && out.config_path == input.config_path
            && out.db_path == input.db_path && out.config_exists == config_exists
            && out.db_exists == db_exists,
        r matches Err(e) ==> e is Infra,
{
    doctor_outcome(input, config_exists, db_exists, repo.bookmark_count())
}

/// The message that a failed sync records and reports.
pub fn sync_failure_message(err: &RepoError) -> (r: String)
    ensures
        r@ == "Sync gagal: "@ + err.message@,
{
    let mut s = string_of("Sync gagal: ");
    append_str(&mut s, err.message.as_str());
    s
}

pub open spec fn sync_success_text() -> Seq<char> {
    "Sync metadata berhasil"@
}

pub open spec fn sync_ok_log_text() -> Seq<char> {
    "Berhasil menghubungi equran.id API v2"@
}

/// What a sync reports and logs for the ping's answer: a reachable source
/// gives `Success` and the log pair ("ok", the success text); a failed ping
/// gives `Failure` with `sync_failure_message` and the log pair ("error",
/// that message).
pub fn sync_step(ping: Result<(), RepoError>) -> (r: (SyncStatus, &'static str, String))
    ensures
        match ping {
            Ok(()) => r.0 matches SyncStatus::Success(m) && m@ == sync_success_text() && r.1@
                == "ok"@ && r.2@ == sync_ok_log_text(),
            Err(e) => r.0 matches SyncStatus::Failure(m) && m@ == "Sync gagal: "@ + e.message@
                && r.1@ == "error"@ && r.2@ == m@,
        },
{
    match ping {
        Ok(()) => (
            SyncStatus::Success(string_of("Sync metadata berhasil")),
            "ok",
            string_of("Berhasil menghubungi equran.id API v2"),
        ),
        Err(err) => {
            let message = sync_failure_message(&err);
            let logged = message.clone();
            (SyncStatus::Failure(message), "error", logged)
        },
    }
}

/// The sync's answer once the outcome was logged: the status, or the log's
/// failure as an infrastructure error.
pub fn sync_outcome(status: SyncStatus, logged: Result<(), RepoError>) -> (r: Result<
    SyncOutput,
    UseCaseError,
>)
    ensures
        match logged {
            Ok(()) => r matches Ok(out) && out.status == status,
            Err(e) => r == Err::<SyncOutput, UseCaseError>(UseCaseError::Infra(e)),
        },
{
    match logged {
        Ok(()) => Ok(SyncOutput { status }),
        Err(e) => Err(infra(e)),
    }
}

/// Pings the content source and logs the outcome; a failed ping is reported
/// as a `Failure` status, not as an error. The ping's answer goes through
/// `sync_step`, the log's answer through `sync_outcome`.
pub fn sync_content<R, G>(repo: &R, gateway: &G, input: SyncInput<SyncRunnable>) -> (r: Result<
    SyncOutput,
    UseCaseError,
>) where R: SyncLogRepository, G: SyncGateway
    ensures
        r matches Ok(out) ==> (out.status matches SyncStatus::Success(m) && m@
            == sync_success_text()) || (out.status matches SyncStatus::Failure(m) && exists|
            e: RepoError,
        | m@ == "Sync gagal: "@ + e.message@),
        r matches Err(e) ==> e is Infra,
{
    let _ = (input.force(), input.sync_enabled());
    let (status, log_status, log_message) = sync_step(gateway.ping());
    let logged = repo.record_sync(log_status, log_message.as_str());
    sync_outcome(status, logged)
}

} // verus!
