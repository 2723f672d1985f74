//! The full-screen reader: its state, the mapping of keys to intents, the
//! effect of each intent, and its layout rules.
use std::path::PathBuf;

use vstd::prelude::*;
use vstd::string::*;

use crate::config::AppConfig;

use crate::audio::{
    ayahs_view, fresh_player, player_wf, started_at, stop_commands, toggle_command, toggled_pause,
    AudioCommand, AudioPlayer, PlayerView,
};
use crate::domain::{
    Ayah, AyahView, Bookmark, BookmarkView, DomainError, LanguageTag, SearchHit, SearchHitView,
    SurahMeta, SurahMetaView, SurahNumber,
};
use crate::ports::{ProgressRepository, QuranReadRepository, RepoError};
use crate::usecases::{ayah_ref_from_raw, from_repo, UseCaseError};
use crate::text::{
    append_str, contains_str, decimal, eq_ignore_ascii_case, eq_ignore_case, has_sub,
    push_decimal, string_of, to_lowercase, trim, trim_str, unicode_lowercase,
};
use crate::tui::render::{filter_surah_indices, filtered_surahs, lemma_filtered_surahs_ascending};
use crate::tui::theme::{Theme, ThemeView};



pub mod actions;
pub mod arabic;
pub mod input;
pub mod render;
pub mod theme;

verus! {

/// What the screen shows on top of the reader.
#[derive(Debug, Clone, Copy, PartialEq, Eq, Structural)]
pub enum UiMode {
    Reading,
    CommandPalette,
    SearchInline,
    BookmarkOverlay,
    HelpOverlay,
}

/// Which pane receives the navigation keys.
#[derive(Debug, Clone, Copy, PartialEq, Eq, Structural)]
pub enum PaneFocus {
    SurahCards,
    AyahReader,
}

/// What a key press asks of the reader.
#[derive(Debug, Clone, Copy, PartialEq, Eq, Structural)]
pub enum Intent {
    Quit,
    NextAyah,
    PrevAyah,
    NextSurah,
    PrevSurah,
    TogglePlayback,
    AudioNext,
    AudioPrev,
    AudioStop,
    AudioRepeat,
    AudioSpeedDown,
    AudioSpeedUp,
    CycleQari,
    FocusNextPane,
    SurahCursorUp,
    SurahCursorDown,
    SurahCursorSelect,
    SurahFilterType(char),
    SurahFilterBackspace,
    SurahFilterClear,
    ToggleSidebar,
    ToggleHelp,
    OpenPalette,
    OpenSearch,
    OpenBookmarks,
    AddBookmark,
    RemoveCurrentAyahBookmarks,
    CloseOverlay,
    PaletteMoveUp,
    PaletteMoveDown,
    PaletteBackspace,
    PaletteSubmit,
    PaletteType(char),
    SearchMoveUp,
    SearchMoveDown,
    SearchBackspace,
    SearchSubmit,
    SearchType(char),
    BookmarkDelete,
    BookmarkMoveUp,
    BookmarkMoveDown,
    BookmarkJump,
    CycleTheme,
}

/// What an entry of the command palette does.
#[derive(Debug, Clone, Copy, PartialEq, Eq, Structural)]
pub enum PaletteAction {
    ToggleSidebar,
    OpenBookmarks,
    OpenSearch,
    ToggleHelp,
    TogglePlayback,
    StopPlayback,
    AddBookmark,
    NextSurah,
    PrevSurah,
    Quit,
    CycleTheme,
}

/// An entry of the command palette.
#[derive(Debug, Clone, Copy)]
pub struct PaletteCommand {
    pub label: &'static str,
    pub keywords: &'static str,
    pub action: PaletteAction,
}

pub open spec fn palette_entry(c: PaletteCommand) -> (Seq<char>, Seq<char>, PaletteAction) {
    (c.label@, c.keywords@, c.action)
}

pub open spec fn palette_view(v: Seq<PaletteCommand>) -> Seq<(Seq<char>, Seq<char>, PaletteAction)> {
    v.map_values(|c: PaletteCommand| palette_entry(c))
}

/// The palette, in the order it is shown.
pub open spec fn palette_table() -> Seq<(Seq<char>, Seq<char>, PaletteAction)> {
    seq![
        ("Toggle side panel"@, "panel sidebar"@, PaletteAction::ToggleSidebar),
        ("Open bookmarks"@, "bookmark list"@, PaletteAction::OpenBookmarks),
        ("Search ayah"@, "search find query"@, PaletteAction::OpenSearch),
        ("Toggle help"@, "help shortcut"@, PaletteAction::ToggleHelp),
        ("Play or pause audio"@, "play pause running audio"@, PaletteAction::TogglePlayback),
        ("Stop playback"@, "stop audio"@, PaletteAction::StopPlayback),
        ("Add bookmark"@, "bookmark save"@, PaletteAction::AddBookmark),
        ("Next surah"@, "surah next"@, PaletteAction::NextSurah),
        ("Previous surah"@, "surah prev"@, PaletteAction::PrevSurah),
        ("Quit"@, "exit close"@, PaletteAction::Quit),
        ("Cycle theme"@, "theme color"@, PaletteAction::CycleTheme),
    ]
}

fn palette_command(label: &'static str, keywords: &'static str, action: PaletteAction) -> (r:
    PaletteCommand)
    ensures
        palette_entry(r) == (label@, keywords@, action),
{
    PaletteCommand { label, keywords, action }
}

/// All palette entries.
pub fn palette_commands() -> (r: Vec<PaletteCommand>)
    ensures
        palette_view(r@) == palette_table(),
{
    let mut v: Vec<PaletteCommand> = Vec::new();
    v.push(palette_command("Toggle side panel", "panel sidebar", PaletteAction::ToggleSidebar));
    v.push(palette_command("Open bookmarks", "bookmark list", PaletteAction::OpenBookmarks));
    v.push(palette_command("Search ayah", "search find query", PaletteAction::OpenSearch));
    v.push(palette_command("Toggle help", "help shortcut", PaletteAction::ToggleHelp));
    v.push(
        palette_command(
            "Play or pause audio",
            "play pause running audio",
            PaletteAction::TogglePlayback,
        ),
    );
    v.push(palette_command("Stop playback", "stop audio", PaletteAction::StopPlayback));
    v.push(palette_command("Add bookmark", "bookmark save", PaletteAction::AddBookmark));
    v.push(palette_command("Next surah", "surah next", PaletteAction::NextSurah));
    v.push(palette_command("Previous surah", "surah prev", PaletteAction::PrevSurah));
    v.push(palette_command("Quit", "exit close", PaletteAction::Quit));
    v.push(palette_command("Cycle theme", "theme color", PaletteAction::CycleTheme));
    assert(palette_view(v@) =~= palette_table());
    v
}

/// A palette entry matches a lower-cased needle by label or keywords.
pub open spec fn palette_matches(e: (Seq<char>, Seq<char>, PaletteAction), needle: Seq<char>) -> bool {
    has_sub(unicode_lowercase(e.0), needle) || has_sub(unicode_lowercase(e.1), needle)
}

/// The entries among the first `k` that match the needle, in order.
pub open spec fn palette_matching(
    t: Seq<(Seq<char>, Seq<char>, PaletteAction)>,
    needle: Seq<char>,
    k: nat,
) -> Seq<(Seq<char>, Seq<char>, PaletteAction)>
    decreases k,
{
    if k == 0 {
        seq![]
    } else {
        let prev = palette_matching(t, needle, (k - 1) as nat);
        if palette_matches(t[k - 1], needle) {
            prev.push(t[k - 1])
        } else {
            prev
        }
    }
}

/// The palette entries offered for what was typed: all of them while the
/// input is blank, else those whose label or keywords contain the lower-cased
/// input.
pub open spec fn filtered_palette_spec(input: Seq<char>) -> Seq<(Seq<char>, Seq<char>, PaletteAction)> {
    if trim(input).len() == 0 {
        palette_table()
    } else {
        palette_matching(palette_table(), unicode_lowercase(input), palette_table().len())
    }
}

pub open spec fn surahs_view(v: Seq<SurahMeta>) -> Seq<SurahMetaView> {
    v.map_values(|m: SurahMeta| m@)
}

pub open spec fn bookmarks_view(v: Seq<Bookmark>) -> Seq<BookmarkView> {
    v.map_values(|b: Bookmark| b@)
}

pub open spec fn hits_view(v: Seq<SearchHit>) -> Seq<SearchHitView> {
    v.map_values(|h: SearchHit| h@)
}

pub open spec fn themes_view(v: Seq<Theme>) -> Seq<ThemeView> {
    v.map_values(|t: Theme| t@)
}

pub open spec fn player_view(p: Option<AudioPlayer>) -> Option<PlayerView> {
    match p {
        Some(q) => Some(q@),
        None => None,
    }
}

/// The reader's state as the contracts see it.
#[verifier::ext_equal]
pub struct TuiView {
    pub surahs: Seq<SurahMetaView>,
    pub selected_surah_idx: usize,
    pub ayahs: Seq<AyahView>,
    pub selected_ayah_idx: usize,
    pub bookmarks: Seq<BookmarkView>,
    pub selected_bookmark_idx: usize,
    pub search_results: Seq<SearchHitView>,
    pub selected_search_idx: usize,
    pub status: Seq<char>,
    pub mode: UiMode,
    pub sidebar_collapsed: bool,
    pub focus: PaneFocus,
    pub surah_cursor_idx: usize,
    pub surah_filter: Seq<char>,
    pub show_translation: bool,
    pub palette_input: Seq<char>,
    pub palette_selected_idx: usize,
    pub search_input: Seq<char>,
    pub themes: Seq<ThemeView>,
    pub theme_idx: usize,
    pub active_qari: Seq<char>,
    pub color_enabled: bool,
    pub player: Option<PlayerView>,
    pub audio: Seq<AudioCommand>,
}

/// The state of the full-screen reader. `audio` collects the sound-device
/// actions that the decisions call for, in order, for the caller to carry
/// out.
pub struct TuiState {
    pub surahs: Vec<SurahMeta>,
    pub selected_surah_idx: usize,
    pub ayahs: Vec<Ayah>,
    pub selected_ayah_idx: usize,
    pub bookmarks: Vec<Bookmark>,
    pub selected_bookmark_idx: usize,
    pub search_results: Vec<SearchHit>,
    pub selected_search_idx: usize,
    pub status: String,
    pub mode: UiMode,
    pub sidebar_collapsed: bool,
    pub focus: PaneFocus,
    pub surah_cursor_idx: usize,
    pub surah_filter: String,
    pub show_translation: bool,
    pub palette_input: String,
    pub palette_selected_idx: usize,
    pub search_input: String,
    pub themes: Vec<Theme>,
    pub theme_idx: usize,
    pub active_qari: String,
    pub color_enabled: bool,
    pub player: Option<AudioPlayer>,
    pub audio: Vec<AudioCommand>,
}

impl View for TuiState {
    type V = TuiView;

    open spec fn view(&self) -> TuiView {
        TuiView {
            surahs: surahs_view(self.surahs@),
            selected_surah_idx: self.selected_surah_idx,
            ayahs: ayahs_view(self.ayahs@),
            selected_ayah_idx: self.selected_ayah_idx,
            bookmarks: bookmarks_view(self.bookmarks@),
            selected_bookmark_idx: self.selected_bookmark_idx,
            search_results: hits_view(self.search_results@),
            selected_search_idx: self.selected_search_idx,
            status: self.status@,
            mode: self.mode,
            sidebar_collapsed: self.sidebar_collapsed,
            focus: self.focus,
            surah_cursor_idx: self.surah_cursor_idx,
            surah_filter: self.surah_filter@,
            show_translation: self.show_translation,
            palette_input: self.palette_input@,
            palette_selected_idx: self.palette_selected_idx,
            search_input: self.search_input@,
            themes: themes_view(self.themes@),
            theme_idx: self.theme_idx,
            active_qari: self.active_qari@,
            color_enabled: self.color_enabled,
            player: player_view(self.player),
            audio: self.audio@,
        }
    }
}

/// The invariant of the reader's state: a surah is open and a theme chosen,
/// the surah cursor names a surah, and a player, if any, is well formed.
pub open spec fn tui_wf(s: TuiView) -> bool {
    &&& s.surahs.len() > 0
    &&& s.selected_surah_idx < s.surahs.len()
    &&& s.surah_cursor_idx < s.surahs.len()
    &&& s.themes.len() > 0
    &&& s.theme_idx < s.themes.len()
    &&& (s.player matches Some(p) ==> player_wf(p))
}

pub open spec fn valid_surah_no(n: u16) -> bool {
    1 <= n <= 114
}

pub open spec fn welcome_status() -> Seq<char> {
    "j/k navigasi ayat | Ctrl+B panel surat | Space play/pause | / search"@
}

/// The first theme whose name equals the requested mode, ignoring ASCII case.
pub open spec fn theme_index_from(themes: Seq<ThemeView>, mode: Seq<char>, k: int) -> int
    decreases themes.len() - k,
{
    if k >= themes.len() || k < 0 {
        -1
    } else if eq_ignore_ascii_case(themes[k].name, mode) {
        k
    } else {
        theme_index_from(themes, mode, k + 1)
    }
}

pub open spec fn theme_index_for(themes: Seq<ThemeView>, mode: Seq<char>) -> usize {
    let i = theme_index_from(themes, mode, 0);
    if i < 0 {
        0
    } else {
        i as usize
    }
}

/// The state in which the reader opens.
pub open spec fn initial_view(
    surahs: Seq<SurahMetaView>,
    themes: Seq<ThemeView>,
    theme_mode: Seq<char>,
    color_enabled: bool,
    show_translation: bool,
    active_qari: Seq<char>,
) -> TuiView {
    TuiView {
        surahs,
        selected_surah_idx: 0,
        ayahs: seq![],
        selected_ayah_idx: 0,
        bookmarks: seq![],
        selected_bookmark_idx: 0,
        search_results: seq![],
        selected_search_idx: 0,
        status: welcome_status(),
        mode: UiMode::Reading,
        sidebar_collapsed: true,
        focus: PaneFocus::AyahReader,
        surah_cursor_idx: 0,
        surah_filter: seq![],
        show_translation,
        palette_input: seq![],
        palette_selected_idx: 0,
        search_input: seq![],
        themes,
        theme_idx: theme_index_for(themes, theme_mode),
        active_qari,
        color_enabled,
        player: None,
        audio: seq![],
    }
}

impl TuiState {
    pub open spec fn wf(&self) -> bool {
        tui_wf(self@)
    }

    /// The reader over a non-empty catalogue, with the theme whose name
    /// matches `theme_mode` (the first theme when none does).
    pub fn new(
        surahs: Vec<SurahMeta>,
        themes: Vec<Theme>,
        theme_mode: &str,
        color_enabled: bool,
        show_translation: bool,
        active_qari: String,
    ) -> (r: Self)
        requires
            surahs@.len() > 0,
            themes@.len() > 0,
        ensures
            r.wf(),
            r@ == initial_view(
                surahs_view(surahs@),
                themes_view(themes@),
                theme_mode@,
                color_enabled,
                show_translation,
                active_qari@,
            ),
    {
        let n = themes.len();
        let mut theme_idx: usize = 0;
        let mut i: usize = 0;
        let mut found = false;
        while i < n
            invariant_except_break
                n == themes@.len(),
                i <= n,
                !found,
                theme_idx == 0,
                theme_index_from(themes_view(themes@), theme_mode@, 0) == theme_index_from(
                    themes_view(themes@),
                    theme_mode@,
                    i as int,
                ),
            ensures
                found ==> theme_idx < n && theme_index_from(themes_view(themes@), theme_mode@, 0)
                    == theme_idx,
                !found ==> theme_index_from(themes_view(themes@), theme_mode@, 0) == -1
                    && theme_idx == 0,
            decreases n - i,
        {
            assert(themes_view(themes@)[i as int] == themes@[i as int]@);
            if eq_ignore_case(themes[i].name.as_str(), theme_mode) {
                theme_idx = i;
                found = true;
                break;
            }
            i = i + 1;
        }
        let ghost tv = themes_view(themes@);
        assert(theme_index_for(tv, theme_mode@) == theme_idx);
        let r = TuiState {
            surahs,
            selected_surah_idx: 0,
            ayahs: Vec::new(),
            selected_ayah_idx: 0,
            bookmarks: Vec::new(),
            selected_bookmark_idx: 0,
            search_results: Vec::new(),
            selected_search_idx: 0,
            status: string_of("j/k navigasi ayat | Ctrl+B panel surat | Space play/pause | / search"),
            mode: UiMode::Reading,
            sidebar_collapsed: true,
            focus: PaneFocus::AyahReader,
            surah_cursor_idx: 0,
            surah_filter: String::new(),
            show_translation,
            palette_input: String::new(),
            palette_selected_idx: 0,
            search_input: String::new(),
            themes,
            theme_idx,
            active_qari,
            color_enabled,
            player: None,
            audio: Vec::new(),
        };
        assert(r@ =~= initial_view(
            surahs_view(r.surahs@),
            tv,
            theme_mode@,
            color_enabled,
            show_translation,
            r.active_qari@,
        ));
        r
    }

    pub fn current_theme(&self) -> (r: &Theme)
        requires
            self.wf(),
        ensures
            r@ == self@.themes[self@.theme_idx as int],
    {
        &self.themes[self.theme_idx]
    }

    pub fn current_surah(&self) -> (r: &SurahMeta)
        requires
            self.wf(),
        ensures
            r@ == self@.surahs[self@.selected_surah_idx as int],
    {
        &self.surahs[self.selected_surah_idx]
    }

    pub fn current_ayah(&self) -> (r: Option<&Ayah>)
        ensures
            self@.selected_ayah_idx < self@.ayahs.len() ==> (r matches Some(a) && a@
                == self@.ayahs[self@.selected_ayah_idx as int]),
            self@.selected_ayah_idx >= self@.ayahs.len() ==> r is None,
    {
        if self.selected_ayah_idx < self.ayahs.len() {
            Some(&self.ayahs[self.selected_ayah_idx])
        } else {
            None
        }
    }

    /// The palette entries offered for the current input.
    pub fn filtered_palette(&self) -> (r: Vec<PaletteCommand>)
        ensures
            palette_view(r@) == filtered_palette_spec(self@.palette_input),
    {
        let all = palette_commands();
        if trim_str(self.palette_input.as_str()).unicode_len() == 0 {
            return all;
        }
        let needle = to_lowercase(self.palette_input.as_str());
        let mut out: Vec<PaletteCommand> = Vec::new();
        let n = all.len();
        let mut i: usize = 0;
        while i < n
            invariant
                n == all@.len(),
                i <= n,
                palette_view(all@) == palette_table(),
                needle@ == unicode_lowercase(self@.palette_input),
                palette_view(out@) == palette_matching(palette_table(), needle@, i as nat),
            decreases n - i,
        {
            let item = all[i];
            assert(palette_entry(item) == palette_table()[i as int]);
            let label = to_lowercase(item.label);
            let keywords = to_lowercase(item.keywords);
            if contains_str(label.as_str(), needle.as_str()) || contains_str(
                keywords.as_str(),
                needle.as_str(),
            ) {
                out.push(item);
                assert(palette_view(out@) =~= palette_matching(
                    palette_table(),
                    needle@,
                    (i + 1) as nat,
                ));
            }
            i = i + 1;
        }
        out
    }

    /// The surahs that the surah filter selects, by index.
    pub fn filtered_surah_indices(&self) -> (r: Vec<usize>)
        ensures
            r@ == filtered_surahs(self@.surahs, self@.surah_filter),
    {
        filter_surah_indices(&self.surahs, self.surah_filter.as_str())
    }
}


// ---------------------------------------------------------------------------
// State changes
// ---------------------------------------------------------------------------

/// `n - 1`, or 0 for 0.
pub open spec fn pred_or_zero(n: int) -> int {
    if n > 0 {
        n - 1
    } else {
        0
    }
}

pub open spec fn min_int(a: int, b: int) -> int {
    if a < b {
        a
    } else {
        b
    }
}

pub open spec fn with_status(s: TuiView, status: Seq<char>) -> TuiView {
    TuiView { status, ..s }
}

pub open spec fn reading_status(m: SurahMetaView) -> Seq<char> {
    "Membaca "@ + m.name_id + " ["@ + decimal(m.ayah_count as nat) + " ayat]"@
}

pub open spec fn play_status(surah_no: u16, ayah_no: u16, qari: Seq<char>) -> Seq<char> {
    "PLAY "@ + decimal(surah_no as nat) + ":"@ + decimal(ayah_no as nat) + " | qari "@ + qari
}

/// The surah's ayahs arrived: the selection stays where it was, within the
/// new list, and the status names the surah.
pub open spec fn loaded_view(s: TuiView, ayahs: Seq<AyahView>) -> TuiView {
    TuiView {
        ayahs,
        selected_ayah_idx: min_int(s.selected_ayah_idx as int, pred_or_zero(ayahs.len() as int))
            as usize,
        status: reading_status(s.surahs[s.selected_surah_idx as int]),
        ..s
    }
}

/// The next theme in the list, wrapping around.
pub open spec fn next_theme_view(s: TuiView) -> TuiView {
    TuiView { theme_idx: ((s.theme_idx + 1) % (s.themes.len() as int)) as usize, ..s }
}

/// The index of the first surah numbered `no`, if any.
pub open spec fn surah_index_from(s: Seq<SurahMetaView>, no: u16, k: int) -> int
    decreases s.len() - k,
{
    if k >= s.len() || k < 0 {
        -1
    } else if s[k].surah_no == no {
        k
    } else {
        surah_index_from(s, no, k + 1)
    }
}

pub proof fn lemma_surah_index_from(s: Seq<SurahMetaView>, no: u16, k: int)
    requires
        0 <= k,
    ensures
        surah_index_from(s, no, k) == -1 || (k <= surah_index_from(s, no, k) < s.len()
            && s[surah_index_from(s, no, k)].surah_no == no),
    decreases s.len() - k,
{
    if k < s.len() && s[k].surah_no != no {
        lemma_surah_index_from(s, no, k + 1);
    }
}

/// The reader moved to surah `surah_no`, ayah `ayah_no`, where the catalogue
/// has that surah; else nothing changes.
pub open spec fn jumped_view(s: TuiView, surah_no: u16, ayah_no: u16) -> TuiView {
    let i = surah_index_from(s.surahs, surah_no, 0);
    if i < 0 {
        s
    } else {
        TuiView {
            selected_surah_idx: i as usize,
            surah_cursor_idx: i as usize,
            selected_ayah_idx: pred_or_zero(ayah_no as int) as usize,
            ..s
        }
    }
}

/// The surah cursor moves to the first surah that the filter selects, when
/// the filter selects some and not the surah under the cursor.
pub open spec fn cursor_clamped_view(s: TuiView, filtered: Seq<usize>) -> TuiView {
    if filtered.len() == 0 || filtered.contains(s.surah_cursor_idx) {
        s
    } else {
        TuiView { surah_cursor_idx: filtered[0], ..s }
    }
}

pub open spec fn paused_status() -> Seq<char> {
    "Audio pause. j/k pindah ayat, Space lanjut."@
}

pub open spec fn resumed_status() -> Seq<char> {
    "Audio lanjut"@
}

pub open spec fn nothing_to_play_status() -> Seq<char> {
    "Tidak ada ayat untuk diputar"@
}

pub open spec fn stopped_status() -> Seq<char> {
    "Audio berhenti"@
}

/// Space: a player pauses or resumes; without one, a new player starts at the
/// selected ayah and plays to the end of the surah.
pub open spec fn playback_toggled_view(s: TuiView) -> TuiView {
    match s.player {
        Some(p) => {
            let q = if p.has_sink {
                toggled_pause(p)
            } else {
                p
            };
            TuiView {
                player: Some(q),
                audio: if p.has_sink {
                    s.audio.push(toggle_command(p))
                } else {
                    s.audio
                },
                status: if q.paused {
                    paused_status()
                } else {
                    resumed_status()
                },
                ..s
            }
        },
        None => {
            if s.selected_ayah_idx >= s.ayahs.len() {
                with_status(s, nothing_to_play_status())
            } else {
                let playlist = s.ayahs.subrange(s.selected_ayah_idx as int, s.ayahs.len() as int);
                let first = playlist[0];
                TuiView {
                    player: Some(
                        started_at(
                            fresh_player(playlist, 0, Some(s.active_qari), s.active_qari),
                            0,
                        ),
                    ),
                    audio: s.audio + seq![AudioCommand::Open, AudioCommand::Start(0)],
                    status: play_status(first.surah_no, first.ayah_no, s.active_qari),
                    selected_ayah_idx: pred_or_zero(first.ayah_no as int) as usize,
                    ..s
                }
            }
        },
    }
}

/// The commands that end a player: stop it if it plays, then release the
/// device.
pub open spec fn close_commands(p: Option<PlayerView>) -> Seq<AudioCommand> {
    match p {
        Some(q) => stop_commands(q).push(AudioCommand::Close),
        None => seq![],
    }
}

/// Playback stops and the player is gone.
pub open spec fn stopped_view(s: TuiView) -> TuiView {
    TuiView {
        player: None,
        audio: s.audio + close_commands(s.player),
        status: stopped_status(),
        ..s
    }
}

fn ayahs_from(v: &Vec<Ayah>, from: usize) -> (r: Vec<Ayah>)
    requires
        from <= v@.len(),
    ensures
        ayahs_view(r@) == ayahs_view(v@).subrange(from as int, v@.len() as int),
{
    let mut out: Vec<Ayah> = Vec::new();
    let n = v.len();
    let mut i = from;
    while i < n
        invariant
            n == v@.len(),
            from <= i <= n,
            ayahs_view(out@) =~= ayahs_view(v@).subrange(from as int, i as int),
        decreases n - i,
    {
        let a = v[i].duplicate();
        let ghost before = out@;
        out.push(a);
        assert(ayahs_view(out@) =~= ayahs_view(before).push(v@[i as int]@));
        assert(ayahs_view(v@)[i as int] == v@[i as int]@);
        i = i + 1;
    }
    out
}

fn contains_index(v: &Vec<usize>, x: usize) -> (r: bool)
    ensures
        r == v@.contains(x),
{
    let n = v.len();
    let mut i: usize = 0;
    while i < n
        invariant
            n == v@.len(),
            i <= n,
            forall|k: int| 0 <= k < i ==> v@[k] != x,
        decreases n - i,
    {
        if v[i] == x {
            assert(v@[i as int] == x);
            return true;
        }
        i = i + 1;
    }
    false
}

impl TuiState {
    pub fn next_theme(&mut self)
        requires
            old(self).wf(),
        ensures
            final(self).wf(),
            final(self)@ == next_theme_view(old(self)@),
    {
        let n = self.themes.len();
        assert(self@.themes.len() == n);
        let next = (self.theme_idx + 1) % n;
        if next < n {
            self.theme_idx = next;
        }
        assert(self@ =~= next_theme_view(old(self)@));
    }

    /// Moves to surah `surah_no`, ayah `ayah_no`, where the catalogue has
    /// that surah.
    pub fn jump_to(&mut self, surah_no: u16, ayah_no: u16)
        requires
            old(self).wf(),
        ensures
            final(self).wf(),
            final(self)@ == jumped_view(old(self)@, surah_no, ayah_no),
    {
        let ghost sv = surahs_view(self.surahs@);
        let n = self.surahs.len();
        let mut i: usize = 0;
        while i < n
            invariant
                n == self.surahs@.len(),
                sv == surahs_view(self.surahs@),
                self@ == old(self)@,
                old(self).wf(),
                i <= n,
                surah_index_from(sv, surah_no, 0) == surah_index_from(sv, surah_no, i as int),
            decreases n - i,
        {
            assert(sv[i as int] == self.surahs@[i as int]@);
            if self.surahs[i].surah_no == surah_no {
                self.selected_surah_idx = i;
                self.surah_cursor_idx = i;
                self.selected_ayah_idx = if ayah_no > 0 {
                    (ayah_no - 1) as usize
                } else {
                    0
                };
                assert(self@ =~= jumped_view(old(self)@, surah_no, ayah_no));
                return;
            }
            i = i + 1;
        }
        assert(self@ =~= jumped_view(old(self)@, surah_no, ayah_no));
    }

    /// Keeps the surah cursor on a surah that the filter selects.
    pub fn clamp_surah_cursor_to_filter(&mut self)
        requires
            old(self).wf(),
        ensures
            final(self).wf(),
            final(self)@ == cursor_clamped_view(
                old(self)@,
                filtered_surahs(old(self)@.surahs, old(self)@.surah_filter),
            ),
    {
        let filtered = self.filtered_surah_indices();
        let count = self.surahs.len();
        proof {
            lemma_filtered_surahs_ascending(self@.surahs, self@.surah_filter);
        }
        if filtered.len() == 0 || contains_index(&filtered, self.surah_cursor_idx) {
            return;
        }
        self.surah_cursor_idx = filtered[0];
        assert(self@ =~= cursor_clamped_view(
            old(self)@,
            filtered_surahs(old(self)@.surahs, old(self)@.surah_filter),
        ));
    }

    /// Takes in the ayahs of the selected surah.
    pub fn apply_loaded_surah(&mut self, ayahs: Vec<Ayah>)
        requires
            old(self).wf(),
        ensures
            final(self).wf(),
            final(self)@ == loaded_view(old(self)@, ayahs_view(ayahs@)),
    {
        self.ayahs = ayahs;
        let last = if self.ayahs.len() > 0 {
            self.ayahs.len() - 1
        } else {
            0
        };
        if self.selected_ayah_idx > last {
            self.selected_ayah_idx = last;
        }
        let mut status = string_of("Membaca ");
        append_str(&mut status, self.surahs[self.selected_surah_idx].name_id.as_str());
        append_str(&mut status, " [");
        push_decimal(&mut status, self.surahs[self.selected_surah_idx].ayah_count as u64);
        append_str(&mut status, " ayat]");
        self.status = status;
        assert(surahs_view(self.surahs@)[self.selected_surah_idx as int]
            == self.surahs@[self.selected_surah_idx as int]@);
        assert(self@ =~= loaded_view(old(self)@, ayahs_view(self.ayahs@)));
    }

    /// Reads the ayahs of the selected surah from the repository. On an error
    /// nothing changes: a surah number out of range is refused before any
    /// read, and a failed read is passed on.
    pub fn load_surah<R: QuranReadRepository>(&mut self, repo: &R, lang: &LanguageTag) -> (r:
        Result<(), UseCaseError>)
        requires
            old(self).wf(),
        ensures
            final(self).wf(),
            r is Ok ==> final(self)@ == loaded_view(old(self)@, final(self)@.ayahs),
            r is Err ==> final(self)@ == old(self)@,
            !valid_surah_no(old(self)@.surahs[old(self)@.selected_surah_idx as int].surah_no) ==> (r
                matches Err(UseCaseError::Domain(DomainError::InvalidSurah(v))) && v == old(
                self,
            )@.surahs[old(self)@.selected_surah_idx as int].surah_no),
            r matches Err(e) ==> (e is Infra || !valid_surah_no(
                old(self)@.surahs[old(self)@.selected_surah_idx as int].surah_no,
            )),
            r is Ok ==> exists|v: Vec<Ayah>|
                #[trigger] repo.surah_answer(
                    old(self)@.surahs[old(self)@.selected_surah_idx as int].surah_no,
                    lang@,
                    Ok(v),
                ) && final(self)@.ayahs == ayahs_view(v@),
    {
        let no = self.surahs[self.selected_surah_idx].surah_no;
        assert(surahs_view(self.surahs@)[self.selected_surah_idx as int]
            == self.surahs@[self.selected_surah_idx as int]@);
        let surah = match SurahNumber::new(no) {
            Ok(s) => s,
            Err(e) => return Err(UseCaseError::Domain(e)),
        };
        match repo.read_surah(surah, lang) {
            Ok(ayahs) => {
                let ghost v = ayahs;
                self.apply_loaded_surah(ayahs);
                proof {
                    assert(repo.surah_answer(surah@, lang@, Ok(v)));
                }
                Ok(())
            },
            Err(e) => Err(UseCaseError::Infra(e)),
        }
    }

    /// Space: pauses or resumes the player, or starts one at the selected
    /// ayah.
    pub fn start_or_toggle_playback(&mut self)
        requires
            old(self).wf(),
        ensures
            final(self).wf(),
            final(self)@ == playback_toggled_view(old(self)@),
    {
        match self.player.take() {
            Some(mut p) => {
                p.toggle_pause(&mut self.audio);
                let paused = p.is_paused();
                self.player = Some(p);
                self.status = if paused {
                    string_of("Audio pause. j/k pindah ayat, Space lanjut.")
                } else {
                    string_of("Audio lanjut")
                };
                assert(self@ =~= playback_toggled_view(old(self)@));
            },
            None => {
                if self.selected_ayah_idx >= self.ayahs.len() {
                    self.status = string_of("Tidak ada ayat untuk diputar");
                    assert(self@ =~= playback_toggled_view(old(self)@));
                    return;
                }
                let playlist = ayahs_from(&self.ayahs, self.selected_ayah_idx);
                assert(ayahs_view(playlist@).len() == playlist@.len());
                let first_surah = playlist[0].surah_no;
                let first_ayah = playlist[0].ayah_no;
                assert(ayahs_view(playlist@)[0] == playlist@[0]@);
                let qari = self.active_qari.clone();
                let fallback = self.active_qari.clone();
                let made = AudioPlayer::new(playlist, 0, Some(qari), fallback, &mut self.audio);
                match made {
                    Ok(p) => {
                        let mut status = string_of("PLAY ");
                        push_decimal(&mut status, first_surah as u64);
                        append_str(&mut status, ":");
                        push_decimal(&mut status, first_ayah as u64);
                        append_str(&mut status, " | qari ");
                        append_str(&mut status, self.active_qari.as_str());
                        self.status = status;
                        self.selected_ayah_idx = if first_ayah > 0 {
                            (first_ayah - 1) as usize
                        } else {
                            0
                        };
                        self.player = Some(p);
                        assert(self@ =~= playback_toggled_view(old(self)@));
                    },
                    Err(_) => {},
                }
            },
        }
    }

    /// Stops playback and drops the player.
    pub fn stop_playback(&mut self)
        requires
            old(self).wf(),
        ensures
            final(self).wf(),
            final(self)@ == stopped_view(old(self)@),
    {
        match self.player.take() {
            Some(mut p) => {
                p.stop(&mut self.audio);
                self.audio.push(AudioCommand::Close);
            },
            None => {},
        }
        self.status = string_of("Audio berhenti");
        assert(self@ =~= stopped_view(old(self)@));
    }
}

// ---------------------------------------------------------------------------
// Opening and closing the reader
// ---------------------------------------------------------------------------

/// The launch position: the requested surah, where the catalogue has it.
pub open spec fn launch_surah_view(s: TuiView, initial_surah: Option<u16>) -> TuiView {
    match initial_surah {
        Some(n) => {
            let i = surah_index_from(s.surahs, n, 0);
            if i >= 0 {
                TuiView { selected_surah_idx: i as usize, surah_cursor_idx: i as usize, ..s }
            } else {
                s
            }
        },
        None => s,
    }
}

/// The launch ayah, kept within the surah.
pub open spec fn launch_ayah_view(s: TuiView, initial_ayah: Option<u16>) -> TuiView {
    match initial_ayah {
        Some(a) => TuiView {
            selected_ayah_idx: min_int(
                pred_or_zero(a as int),
                pred_or_zero(s.ayahs.len() as int),
            ) as usize,
            ..s
        },
        None => s,
    }
}

/// The reader as it opens, given the catalogue and the ayahs that the
/// repository gave.
pub open spec fn session_view(
    surahs: Seq<SurahMetaView>,
    ayahs: Seq<AyahView>,
    themes: Seq<ThemeView>,
    theme_mode: Seq<char>,
    color_enabled: bool,
    show_translation: bool,
    active_qari: Seq<char>,
    initial_surah: Option<u16>,
    initial_ayah: Option<u16>,
    autoplay: bool,
) -> TuiView {
    let s0 = initial_view(surahs, themes, theme_mode, color_enabled, show_translation, active_qari);
    let s1 = launch_surah_view(s0, initial_surah);
    let s2 = loaded_view(s1, ayahs);
    let s3 = launch_ayah_view(s2, initial_ayah);
    if autoplay {
        playback_toggled_view(s3)
    } else {
        s3
    }
}

/// The reader over the catalogue that the content source gave, at the
/// requested surah where the catalogue has it; an empty catalogue is refused.
pub fn session_start(
    surahs: Vec<SurahMeta>,
    themes: Vec<Theme>,
    theme_mode: &str,
    color_enabled: bool,
    show_translation: bool,
    active_qari: String,
    initial_surah: Option<u16>,
) -> (r: Result<TuiState, UseCaseError>)
    requires
        themes@.len() > 0,
    ensures
        surahs@.len() == 0 ==> (r matches Err(UseCaseError::Infra(e)) && e.message@
            == "Tidak ada data surah dari API"@),
        surahs@.len() > 0 ==> (r matches Ok(st) && st.wf() && st@ == launch_surah_view(
            initial_view(
                surahs_view(surahs@),
                themes_view(themes@),
                theme_mode@,
                color_enabled,
                show_translation,
                active_qari@,
            ),
            initial_surah,
        )),
{
    if surahs.len() == 0 {
        return Err(UseCaseError::Infra(RepoError { message: string_of("Tidak ada data surah dari API") }));
    }
    let mut state = TuiState::new(
        surahs,
        themes,
        theme_mode,
        color_enabled,
        show_translation,
        active_qari,
    );
    let ghost s0 = state@;
    if let Some(n) = initial_surah {
        let ghost sv = state@.surahs;
        let count = state.surahs.len();
        let mut i: usize = 0;
        let mut found = false;
        while i < count
            invariant_except_break
                count == state.surahs@.len(),
                sv == surahs_view(state.surahs@),
                i <= count,
                !found,
                surah_index_from(sv, n, 0) == surah_index_from(sv, n, i as int),
            ensures
                found ==> i < count && surah_index_from(sv, n, 0) == i,
                !found ==> surah_index_from(sv, n, 0) == -1,
            decreases count - i,
        {
            assert(sv[i as int] == state.surahs@[i as int]@);
            if state.surahs[i].surah_no == n {
                found = true;
                break;
            }
            i = i + 1;
        }
        if found {
            state.selected_surah_idx = i;
            state.surah_cursor_idx = i;
        }
    }
    assert(state@ =~= launch_surah_view(s0, initial_surah));
    Ok(state)
}

impl TuiState {
    /// The last steps of opening the reader: the requested ayah, kept within
    /// the surah, and playback when asked.
    pub fn finish_launch(&mut self, initial_ayah: Option<u16>, autoplay: bool)
        requires
            old(self).wf(),
        ensures
            final(self).wf(),
            final(self)@ == (if autoplay {
                playback_toggled_view(launch_ayah_view(old(self)@, initial_ayah))
            } else {
                launch_ayah_view(old(self)@, initial_ayah)
            }),
    {
        if let Some(a) = initial_ayah {
            let wanted: usize = if a > 0 {
                (a - 1) as usize
            } else {
                0
            };
            let len = self.ayahs.len();
            let last: usize = if len > 0 {
                len - 1
            } else {
                0
            };
            self.selected_ayah_idx = if wanted < last {
                wanted
            } else {
                last
            };
        }
        assert(self@ =~= launch_ayah_view(old(self)@, initial_ayah));
        if autoplay {
            self.start_or_toggle_playback();
        }
    }
}

/// Opens the reader: reads the catalogue (an empty one is refused, as
/// `session_start` says), moves to the requested surah, reads the surah
/// (`load_surah`), then moves to the requested ayah and starts playback when
/// asked (`finish_launch`).
pub fn open_session<R: QuranReadRepository>(
    read_repo: &R,
    lang: &LanguageTag,
    themes: Vec<Theme>,
    theme_mode: &str,
    color_enabled: bool,
    show_translation: bool,
    active_qari: String,
    initial_surah: Option<u16>,
    initial_ayah: Option<u16>,
    autoplay: bool,
) -> (r: Result<TuiState, UseCaseError>)
    requires
        themes@.len() > 0,
    ensures
        r matches Ok(st) ==> st.wf() && st@ == session_view(
            st@.surahs,
            st@.ayahs,
            themes_view(themes@),
            theme_mode@,
            color_enabled,
            show_translation,
            active_qari@,
            initial_surah,
            initial_ayah,
            autoplay,
        ),
        r matches Err(e) ==> (e is Infra || (e matches UseCaseError::Domain(d)
            && d is InvalidSurah)),
        r matches Ok(st) ==> exists|cat: Vec<SurahMeta>|
            #[trigger] read_repo.catalogue_answer(Ok(cat)) && st@.surahs == surahs_view(cat@),
        r matches Ok(st) ==> exists|v: Vec<Ayah>|
            #[trigger] read_repo.surah_answer(
                st@.surahs[st@.selected_surah_idx as int].surah_no,
                lang@,
                Ok(v),
            ) && st@.ayahs == ayahs_view(v@),
{
    let ghost tv = themes_view(themes@);
    let surahs = match from_repo(read_repo.list_surahs()) {
        Ok(v) => v,
        Err(e) => return Err(e),
    };
    let ghost cat = surahs;
    proof {
        assert(read_repo.catalogue_answer(Ok(cat)));
    }
    let mut state = match session_start(
        surahs,
        themes,
        theme_mode,
        color_enabled,
        show_translation,
        active_qari,
        initial_surah,
    ) {
        Ok(st) => st,
        Err(e) => return Err(e),
    };
    match state.load_surah(read_repo, lang) {
        Ok(()) => {},
        Err(e) => return Err(e),
    }
    state.finish_launch(initial_ayah, autoplay);
    assert(state@ =~= session_view(
        state@.surahs,
        state@.ayahs,
        tv,
        theme_mode@,
        color_enabled,
        show_translation,
        state@.active_qari,
        initial_surah,
        initial_ayah,
        autoplay,
    ));
    Ok(state)
}

/// On leaving the reader, the selected ayah, if any, is stored as the last
/// position read.
pub fn close_session<S: ProgressRepository>(state_repo: &S, state: &TuiState) -> (r: Result<
    (),
    UseCaseError,
>)
    ensures
        state@.selected_ayah_idx >= state@.ayahs.len() ==> r is Ok,
        ({
            let a = state@.ayahs[state@.selected_ayah_idx as int];
            state@.selected_ayah_idx < state@.ayahs.len() && !(valid_surah_no(a.surah_no) && 1
                <= a.ayah_no <= 286) ==> (r matches Err(e) && e is Domain)
        }),
        r matches Err(e) ==> (e is Infra || e is Domain),
        ({
            let a = state@.ayahs[state@.selected_ayah_idx as int];
            state@.selected_ayah_idx < state@.ayahs.len() && r is Ok ==> state_repo.store_answer(
                (a.surah_no, a.ayah_no),
                Ok(()),
            )
        }),
{
    match state.current_ayah() {
        None => Ok(()),
        Some(a) => {
            let target = match ayah_ref_from_raw(a.surah_no, a.ayah_no) {
                Ok(t) => t,
                Err(e) => return Err(e),
            };
            match from_repo(state_repo.set_progress(target)) {
                Ok(()) => {
                    proof {
                        assert(a@.surah_no == a.surah_no && a@.ayah_no == a.ayah_no);
                        assert(state@.ayahs[state@.selected_ayah_idx as int] == a@);
                    }
                    Ok(())
                },
                Err(e) => Err(e),
            }
        }
    }
}

impl TuiState {
    /// Hands over the sound-device actions collected so far, in order.
    pub fn take_audio_commands(&mut self) -> (r: Vec<AudioCommand>)
        requires
            old(self).wf(),
        ensures
            final(self).wf(),
            r@ == old(self)@.audio,
            final(self)@ == (TuiView { audio: seq![], ..old(self)@ }),
    {
        let mut out: Vec<AudioCommand> = Vec::new();
        std::mem::swap(&mut out, &mut self.audio);
        assert(self@ =~= (TuiView { audio: seq![], ..old(self)@ }));
        out
    }
}

// ---------------------------------------------------------------------------
// Launch options
// ---------------------------------------------------------------------------

/// How the reader is opened.
#[derive(Debug)]
pub struct TuiLaunchOptions {
    pub theme_mode: String,
    pub show_translation: bool,
    pub audio_cache_root: PathBuf,
    pub default_qari: String,
    pub cache_enabled: bool,
    pub cache_max_mb: u64,
    pub initial_surah: Option<u16>,
    pub initial_ayah: Option<u16>,
    pub autoplay: bool,
    pub qari_override: Option<String>,
    pub color_enabled: bool,
}

impl TuiLaunchOptions {
    /// The reader as `tui` opens it: the settings' theme, translation,
    /// qari and cache, at the start, without playback.
    pub fn reader(config: &AppConfig, audio_cache_root: PathBuf, color_enabled: bool) -> (r: Self)
        ensures
            r.theme_mode@ == (if trim(config.ui.theme@).len() == 0 {
                config.theme@
            } else {
                config.ui.theme@
            }),
            r.show_translation == config.show_translation,
            r.audio_cache_root == audio_cache_root,
            r.default_qari@ == config.audio.default_qari@,
            r.cache_enabled == config.audio.cache_enabled,
            r.cache_max_mb == config.audio.cache_max_mb,
            r.initial_surah is None,
            r.initial_ayah is None,
            !r.autoplay,
            r.qari_override is None,
            r.color_enabled == color_enabled,
    {
        TuiLaunchOptions {
            theme_mode: string_of(config.ui_theme()),
            show_translation: config.show_translation,
            audio_cache_root,
            default_qari: config.audio.default_qari.clone(),
            cache_enabled: config.audio.cache_enabled,
            cache_max_mb: config.audio.cache_max_mb,
            initial_surah: None,
            initial_ayah: None,
            autoplay: false,
            qari_override: None,
            color_enabled,
        }
    }

    /// The reader as `play` opens it: at the requested surah and ayah,
    /// playing, with the requested qari, and without the cache when asked.
    pub fn playback(
        config: &AppConfig,
        audio_cache_root: PathBuf,
        color_enabled: bool,
        surah: u16,
        ayah: Option<u16>,
        no_cache: bool,
        qari_override: Option<String>,
    ) -> (r: Self)
        ensures
            r.theme_mode@ == (if trim(config.ui.theme@).len() == 0 {
                config.theme@
            } else {
                config.ui.theme@
            }),
            r.show_translation == config.show_translation,
            r.audio_cache_root == audio_cache_root,
            r.default_qari@ == config.audio.default_qari@,
            r.cache_enabled == (config.audio.cache_enabled && !no_cache),
            r.cache_max_mb == config.audio.cache_max_mb,
            r.initial_surah == Some(surah),
            r.initial_ayah == ayah,
            r.autoplay,
            r.qari_override == qari_override,
            r.color_enabled == color_enabled,
    {
        TuiLaunchOptions {
            theme_mode: string_of(config.ui_theme()),
            show_translation: config.show_translation,
            audio_cache_root,
            default_qari: config.audio.default_qari.clone(),
            cache_enabled: config.audio.cache_enabled && !no_cache,
            cache_max_mb: config.audio.cache_max_mb,
            initial_surah: Some(surah),
            initial_ayah: ayah,
            autoplay: true,
            qari_override,
            color_enabled,
        }
    }

    /// The qari the reader starts with: the requested one, else the
    /// settings' default.
    pub fn active_qari(&self) -> (r: String)
        ensures
            r@ == match self.qari_override {
                Some(q) => q@,
                None => self.default_qari@,
            },
    {
        match &self.qari_override {
            Some(q) => q.clone(),
            None => self.default_qari.clone(),
        }
    }
}

} // verus!
