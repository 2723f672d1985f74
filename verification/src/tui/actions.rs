//! What each intent does to the reader's state. An intent that needs the
//! repositories states what holds whatever they answer; the rest are exact.
use vstd::prelude::*;
use vstd::string::*;

use crate::audio::{
    ayahs_view,
    clamp_rate, next_qari, next_qari_spec, qari_display_name, qari_name, speed_commands,
    speed_label, speed_text, started_at, stop_commands, stopped_player, with_qari, with_rate,
    tick_outcome, AudioCommand, AudioPlayer, PlayerTick,
};
use crate::domain::{
    AyahView, Bookmark, BookmarkId, BookmarkView, DomainError, LanguageTag, SearchHit, SearchLimit,
};
use crate::ports::{BookmarkRepository, ProgressRepository, QuranReadRepository};
use crate::text::{
    append_str, char_is_control, decimal, is_control_char, pop_char, push_char, push_decimal,
    push_signed_decimal, signed_decimal, string_of, trim, trim_str,
};
use crate::usecases::{ayah_ref_from_raw, UseCaseError};
use crate::tui::render::{
    can_show_sidebar_in_frame, filtered_surahs, lemma_filtered_surahs_ascending, sidebar_fits,
    Rect,
};
use crate::tui::{
    palette_entry, palette_view, PaletteAction, bookmarks_view, hits_view, jumped_view, loaded_view, valid_surah_no, playback_toggled_view,
    stopped_view, cursor_clamped_view, filtered_palette_spec, min_int, play_status, pred_or_zero, tui_wf,
    with_status, Intent, PaneFocus, TuiState, TuiView, UiMode,
};

verus! {

// ---------------------------------------------------------------------------
// Status lines
// ---------------------------------------------------------------------------

pub open spec fn speed_status(rate: u16) -> Seq<char> {
    "Playback speed "@ + speed_text(rate)
}

pub open spec fn qari_status(qari: Seq<char>) -> Seq<char> {
    "Qari aktif "@ + qari + " ("@ + qari_display_name(qari) + ")"@
}

pub open spec fn sidebar_hidden_status() -> Seq<char> {
    "Panel surat tersembunyi. Tekan Ctrl+B untuk membuka daftar surat."@
}

pub open spec fn focus_cards_status() -> Seq<char> {
    "Fokus panel surat. Ketik untuk filter, j/k navigasi, Enter membuka."@
}

pub open spec fn focus_reader_status() -> Seq<char> {
    "Fokus panel baca. Gunakan j/k untuk pindah ayat."@
}

pub open spec fn no_filter_match_status() -> Seq<char> {
    "Filter surat tidak menemukan hasil."@
}

pub open spec fn filter_cleared_status() -> Seq<char> {
    "Filter surat dibersihkan."@
}

pub open spec fn filter_empty_status(filter: Seq<char>) -> Seq<char> {
    "Filter '"@ + filter + "' tidak ada hasil."@
}

pub open spec fn filter_hits_status(filter: Seq<char>, hits: nat) -> Seq<char> {
    "Filter surat: '"@ + filter + "' ("@ + decimal(hits) + " hasil)"@
}

pub open spec fn sidebar_opened_status() -> Seq<char> {
    "Panel surat dibuka. Ketik untuk filter, Enter untuk membuka surat."@
}

pub open spec fn terminal_too_small_status() -> Seq<char> {
    "Ukuran terminal terlalu kecil untuk panel surat."@
}

pub open spec fn full_reading_status() -> Seq<char> {
    "Mode baca penuh aktif. Tekan Ctrl+B untuk membuka panel surat."@
}

pub open spec fn theme_status(name: Seq<char>) -> Seq<char> {
    "Tema diubah ke: "@ + name
}

fn play_status_string(surah_no: u16, ayah_no: u16, qari: &str) -> (r: String)
    ensures
        r@ == play_status(surah_no, ayah_no, qari@),
{
    let mut s = string_of("PLAY ");
    push_decimal(&mut s, surah_no as u64);
    append_str(&mut s, ":");
    push_decimal(&mut s, ayah_no as u64);
    append_str(&mut s, " | qari ");
    append_str(&mut s, qari);
    s
}

fn filter_status_string(filter: &str, hits: usize) -> (r: String)
    ensures
        r@ == filter_hits_status(filter@, hits as nat),
{
    let mut s = string_of("Filter surat: '");
    append_str(&mut s, filter);
    append_str(&mut s, "' (");
    push_decimal(&mut s, hits as u64);
    append_str(&mut s, " hasil)");
    s
}

// ---------------------------------------------------------------------------
// Intents that need no repository
// ---------------------------------------------------------------------------

/// The surah panel fits a terminal of `w` by `h` cells.
pub open spec fn frame_fits(w: u16, h: u16) -> bool {
    sidebar_fits(Rect { x: 0, y: 0, width: w, height: h })
}

/// After every intent the surah panel closes where the terminal is too small
/// for it.
pub open spec fn fitted(s: TuiView, w: u16, h: u16) -> TuiView {
    if frame_fits(w, h) {
        s
    } else {
        TuiView { sidebar_collapsed: true, focus: PaneFocus::AyahReader, ..s }
    }
}

/// The player moves one ayah forward or back; at the end of the playlist a
/// forward step stops it, at the start a backward step does nothing.
pub open spec fn player_stepped(s: TuiView, forward: bool) -> TuiView {
    match s.player {
        None => s,
        Some(p) => {
            if forward && p.index + 1 < p.ayahs.len() {
                let i = (p.index + 1) as usize;
                TuiView {
                    player: Some(started_at(p, i)),
                    audio: s.audio.push(AudioCommand::Start(i)),
                    status: play_status(p.ayahs[i as int].surah_no, p.ayahs[i as int].ayah_no, s.active_qari),
                    ..s
                }
            } else if forward {
                TuiView {
                    player: Some(stopped_player(p)),
                    audio: s.audio + stop_commands(p),
                    ..s
                }
            } else if p.index > 0 {
                let i = (p.index - 1) as usize;
                TuiView {
                    player: Some(started_at(p, i)),
                    audio: s.audio.push(AudioCommand::Start(i)),
                    status: play_status(p.ayahs[i as int].surah_no, p.ayahs[i as int].ayah_no, s.active_qari),
                    ..s
                }
            } else {
                s
            }
        },
    }
}

/// The current ayah plays again from its start.
pub open spec fn player_repeated(s: TuiView) -> TuiView {
    match s.player {
        None => s,
        Some(p) => TuiView {
            player: Some(started_at(p, p.index)),
            audio: s.audio.push(AudioCommand::Start(p.index)),
            ..s
        },
    }
}

/// The speed changes by `delta` hundredths, within 75..=125.
pub open spec fn speed_changed(s: TuiView, delta: int) -> TuiView {
    match s.player {
        None => s,
        Some(p) => {
            let r = clamp_rate(p.rate + delta);
            TuiView {
                player: Some(with_rate(p, r)),
                audio: s.audio + speed_commands(p, r),
                status: speed_status(r),
                ..s
            }
        },
    }
}

/// The next qari of the cycle becomes active; a player restarts the current
/// ayah with that qari.
pub open spec fn qari_cycled(s: TuiView) -> TuiView {
    let q = next_qari_spec(s.active_qari);
    match s.player {
        None => TuiView { active_qari: q, status: qari_status(q), ..s },
        Some(p) => TuiView {
            active_qari: q,
            player: Some(started_at(with_qari(p, q), p.index)),
            audio: s.audio.push(AudioCommand::Start(p.index)),
            status: qari_status(q),
            ..s
        },
    }
}

/// Tab: the focus moves to the other pane while the surah panel is open.
pub open spec fn focus_cycled(s: TuiView) -> TuiView {
    if s.sidebar_collapsed {
        TuiView { focus: PaneFocus::AyahReader, status: sidebar_hidden_status(), ..s }
    } else if s.focus == PaneFocus::SurahCards {
        TuiView { focus: PaneFocus::AyahReader, status: focus_reader_status(), ..s }
    } else {
        TuiView { focus: PaneFocus::SurahCards, status: focus_cards_status(), ..s }
    }
}

/// The first position of `x` in `v` at or after `k`, or -1.
pub open spec fn position_from(v: Seq<usize>, x: usize, k: int) -> int
    decreases v.len() - k,
{
    if k < 0 || k >= v.len() {
        -1
    } else if v[k] == x {
        k
    } else {
        position_from(v, x, k + 1)
    }
}

proof fn lemma_position_from(v: Seq<usize>, x: usize, k: int)
    requires
        0 <= k,
    ensures
        position_from(v, x, k) == -1 || (k <= position_from(v, x, k) < v.len() && v[position_from(
            v,
            x,
            k,
        )] == x),
        position_from(v, x, k) == -1 ==> forall|j: int| k <= j < v.len() ==> v[j] != x,
    decreases v.len() - k,
{
    if k < v.len() && v[k] != x {
        lemma_position_from(v, x, k + 1);
    }
}

/// The surah cursor moves to the previous or next surah that the filter
/// selects.
pub open spec fn cursor_moved(s: TuiView, up: bool) -> TuiView {
    let f = filtered_surahs(s.surahs, s.surah_filter);
    let pos = position_from(f, s.surah_cursor_idx, 0);
    if f.len() == 0 {
        with_status(s, no_filter_match_status())
    } else if up && pos > 0 {
        TuiView { surah_cursor_idx: f[pos - 1], ..s }
    } else if !up && pos >= 0 && pos + 1 < f.len() {
        TuiView { surah_cursor_idx: f[pos + 1], ..s }
    } else {
        s
    }
}

/// The filter's status line after an edit.
pub open spec fn filter_status(s: TuiView, cleared_when_empty: bool) -> Seq<char> {
    let hits = filtered_surahs(s.surahs, s.surah_filter).len();
    if cleared_when_empty && s.surah_filter.len() == 0 {
        filter_cleared_status()
    } else if !cleared_when_empty && hits == 0 {
        filter_empty_status(s.surah_filter)
    } else {
        filter_hits_status(s.surah_filter, hits)
    }
}

/// The filter after it changed: the cursor kept on a selected surah, and the
/// status line updated.
pub open spec fn filter_changed(s: TuiView, filter: Seq<char>, cleared_when_empty: bool) -> TuiView {
    let s1 = TuiView { surah_filter: filter, ..s };
    let s2 = cursor_clamped_view(s1, filtered_surahs(s1.surahs, s1.surah_filter));
    with_status(s2, filter_status(s2, cleared_when_empty))
}

pub open spec fn drop_last_char(s: Seq<char>) -> Seq<char> {
    if s.len() > 0 {
        s.drop_last()
    } else {
        s
    }
}

/// Ctrl+B: the surah panel opens, where the terminal has room for it, or
/// closes.
pub open spec fn sidebar_toggled(s: TuiView, w: u16, h: u16) -> TuiView {
    if !s.sidebar_collapsed {
        TuiView {
            sidebar_collapsed: true,
            focus: PaneFocus::AyahReader,
            status: full_reading_status(),
            ..s
        }
    } else if frame_fits(w, h) {
        TuiView {
            sidebar_collapsed: false,
            focus: PaneFocus::SurahCards,
            status: sidebar_opened_status(),
            ..s
        }
    } else {
        TuiView { focus: PaneFocus::AyahReader, status: terminal_too_small_status(), ..s }
    }
}

/// One step down a list of `len` entries, staying on the last.
pub open spec fn step_down(idx: usize, len: nat) -> usize {
    if len > 0 {
        min_int(idx + 1, len - 1) as usize
    } else {
        idx
    }
}

/// The effect of an intent that needs no repository, before the panel is
/// fitted to the terminal.
pub open spec fn pure_effect(s: TuiView, intent: Intent, w: u16, h: u16) -> TuiView {
    match intent {
        Intent::TogglePlayback => playback_toggled_view(s),
        Intent::AudioStop => stopped_view(s),
        Intent::AudioNext => player_stepped(s, true),
        Intent::AudioPrev => player_stepped(s, false),
        Intent::AudioRepeat => player_repeated(s),
        Intent::AudioSpeedDown => speed_changed(s, -5),
        Intent::AudioSpeedUp => speed_changed(s, 5),
        Intent::CycleQari => qari_cycled(s),
        Intent::FocusNextPane => focus_cycled(s),
        Intent::SurahCursorUp => cursor_moved(s, true),
        Intent::SurahCursorDown => cursor_moved(s, false),
        Intent::SurahFilterType(c) => {
            if is_control_char(c) {
                s
            } else {
                filter_changed(s, s.surah_filter.push(c), false)
            }
        },
        Intent::SurahFilterBackspace => filter_changed(s, drop_last_char(s.surah_filter), true),
        Intent::SurahFilterClear => TuiView {
            surah_filter: seq![],
            surah_cursor_idx: s.selected_surah_idx,
            status: filter_cleared_status(),
            ..s
        },
        Intent::ToggleSidebar => sidebar_toggled(s, w, h),
        Intent::ToggleHelp => TuiView { mode: UiMode::HelpOverlay, ..s },
        Intent::OpenPalette => TuiView {
            mode: UiMode::CommandPalette,
            palette_input: seq![],
            palette_selected_idx: 0,
            ..s
        },
        Intent::OpenSearch => TuiView {
            mode: UiMode::SearchInline,
            search_input: seq![],
            search_results: seq![],
            selected_search_idx: 0,
            ..s
        },
        Intent::CloseOverlay => TuiView { mode: UiMode::Reading, ..s },
        Intent::PaletteMoveUp => TuiView {
            palette_selected_idx: pred_or_zero(s.palette_selected_idx as int) as usize,
            ..s
        },
        Intent::PaletteMoveDown => TuiView {
            palette_selected_idx: step_down(
                s.palette_selected_idx,
                filtered_palette_spec(s.palette_input).len(),
            ),
            ..s
        },
        Intent::PaletteBackspace => TuiView {
            palette_input: drop_last_char(s.palette_input),
            palette_selected_idx: 0,
            ..s
        },
        Intent::PaletteType(c) => {
            if is_control_char(c) {
                s
            } else {
                TuiView { palette_input: s.palette_input.push(c), palette_selected_idx: 0, ..s }
            }
        },
        Intent::SearchMoveUp => TuiView {
            selected_search_idx: pred_or_zero(s.selected_search_idx as int) as usize,
            ..s
        },
        Intent::SearchMoveDown => TuiView {
            selected_search_idx: step_down(s.selected_search_idx, s.search_results.len()),
            ..s
        },
        Intent::SearchBackspace => TuiView { search_input: drop_last_char(s.search_input), ..s },
        Intent::SearchType(c) => {
            if is_control_char(c) {
                s
            } else {
                TuiView { search_input: s.search_input.push(c), ..s }
            }
        },
        Intent::BookmarkMoveUp => TuiView {
            selected_bookmark_idx: pred_or_zero(s.selected_bookmark_idx as int) as usize,
            ..s
        },
        Intent::BookmarkMoveDown => TuiView {
            selected_bookmark_idx: step_down(s.selected_bookmark_idx, s.bookmarks.len()),
            ..s
        },
        Intent::CycleTheme => {
            let t = ((s.theme_idx + 1) % (s.themes.len() as int)) as usize;
            TuiView { theme_idx: t, status: theme_status(s.themes[t as int].name), ..s }
        },
        _ => s,
    }
}

/// The intents whose effect needs no repository.
pub open spec fn is_pure_intent(intent: Intent) -> bool {
    match intent {
        Intent::TogglePlayback | Intent::AudioStop | Intent::AudioNext | Intent::AudioPrev
        | Intent::AudioRepeat | Intent::AudioSpeedDown
        | Intent::AudioSpeedUp | Intent::CycleQari | Intent::FocusNextPane
        | Intent::SurahCursorUp | Intent::SurahCursorDown | Intent::SurahFilterType(_)
        | Intent::SurahFilterBackspace | Intent::SurahFilterClear | Intent::ToggleSidebar
        | Intent::ToggleHelp | Intent::OpenPalette | Intent::OpenSearch | Intent::CloseOverlay
        | Intent::PaletteMoveUp | Intent::PaletteMoveDown | Intent::PaletteBackspace
        | Intent::PaletteType(_) | Intent::SearchMoveUp | Intent::SearchMoveDown
        | Intent::SearchBackspace | Intent::SearchType(_) | Intent::BookmarkMoveUp
        | Intent::BookmarkMoveDown | Intent::CycleTheme => true,
        _ => false,
    }
}

fn step_player(state: &mut TuiState, forward: bool)
    requires
        old(state).wf(),
    ensures
        final(state).wf(),
        final(state)@ == player_stepped(old(state)@, forward),
{
    match state.player.take() {
        None => {},
        Some(mut p) => {
            let moved = if forward {
                p.advance(&mut state.audio)
            } else {
                p.prev(&mut state.audio)
            };
            if moved {
                let i = p.index;
                let surah_no = p.ayahs[i].surah_no;
                let ayah_no = p.ayahs[i].ayah_no;
                state.status = play_status_string(surah_no, ayah_no, state.active_qari.as_str());
            }
            state.player = Some(p);
        },
    }
    assert(state@ =~= player_stepped(old(state)@, forward));
}

fn repeat_player(state: &mut TuiState)
    requires
        old(state).wf(),
    ensures
        final(state).wf(),
        final(state)@ == player_repeated(old(state)@),
{
    match state.player.take() {
        None => {},
        Some(mut p) => {
            p.restart_current(&mut state.audio);
            state.player = Some(p);
        },
    }
    assert(state@ =~= player_repeated(old(state)@));
}

fn change_speed(state: &mut TuiState, up: bool)
    requires
        old(state).wf(),
    ensures
        final(state).wf(),
        final(state)@ == speed_changed(
            old(state)@,
            if up {
                5
            } else {
                -5
            },
        ),
{
    match state.player.take() {
        None => {},
        Some(mut p) => {
            let rate = p.playback_rate();
            let next: u16 = if up {
                if rate >= 120 {
                    125
                } else {
                    rate + 5
                }
            } else {
                if rate <= 80 {
                    75
                } else {
                    rate - 5
                }
            };
            p.set_playback_rate(next, &mut state.audio);
            let mut status = string_of("Playback speed ");
            let label = speed_label(p.playback_rate());
            append_str(&mut status, label.as_str());
            state.status = status;
            state.player = Some(p);
        },
    }
    assert(state@ =~= speed_changed(
        old(state)@,
        if up {
            5
        } else {
            -5
        },
    ));
}

fn cycle_qari(state: &mut TuiState)
    requires
        old(state).wf(),
    ensures
        final(state).wf(),
        final(state)@ == qari_cycled(old(state)@),
{
    state.active_qari = next_qari(state.active_qari.as_str());
    match state.player.take() {
        None => {},
        Some(mut p) => {
            p.set_qari(state.active_qari.clone(), &mut state.audio);
            state.player = Some(p);
        },
    }
    let mut status = string_of("Qari aktif ");
    append_str(&mut status, state.active_qari.as_str());
    append_str(&mut status, " (");
    append_str(&mut status, qari_name(state.active_qari.as_str()));
    append_str(&mut status, ")");
    state.status = status;
    assert(state@ =~= qari_cycled(old(state)@));
}

fn cycle_focus(state: &mut TuiState)
    requires
        old(state).wf(),
    ensures
        final(state).wf(),
        final(state)@ == focus_cycled(old(state)@),
{
    if state.sidebar_collapsed {
        state.focus = PaneFocus::AyahReader;
        state.status = string_of("Panel surat tersembunyi. Tekan Ctrl+B untuk membuka daftar surat.");
    } else if state.focus == PaneFocus::SurahCards {
        state.focus = PaneFocus::AyahReader;
        state.status = string_of("Fokus panel baca. Gunakan j/k untuk pindah ayat.");
    } else {
        state.focus = PaneFocus::SurahCards;
        state.status = string_of(
            "Fokus panel surat. Ketik untuk filter, j/k navigasi, Enter membuka.",
        );
    }
    assert(state@ =~= focus_cycled(old(state)@));
}

fn position_of(v: &Vec<usize>, x: usize) -> (r: Option<usize>)
    ensures
        r is None ==> position_from(v@, x, 0) == -1,
        r matches Some(i) ==> position_from(v@, x, 0) == i && i < v@.len(),
{
    let n = v.len();
    let mut i: usize = 0;
    while i < n
        invariant
            n == v@.len(),
            i <= n,
            position_from(v@, x, 0) == position_from(v@, x, i as int),
        decreases n - i,
    {
        if v[i] == x {
            return Some(i);
        }
        i = i + 1;
    }
    None
}

fn move_cursor(state: &mut TuiState, up: bool)
    requires
        old(state).wf(),
    ensures
        final(state).wf(),
        final(state)@ == cursor_moved(old(state)@, up),
{
    let filtered = state.filtered_surah_indices();
    let count = state.surahs.len();
    proof {
        lemma_filtered_surahs_ascending(state@.surahs, state@.surah_filter);
    }
    if filtered.len() == 0 {
        state.status = string_of("Filter surat tidak menemukan hasil.");
        assert(state@ =~= cursor_moved(old(state)@, up));
        return;
    }
    match position_of(&filtered, state.surah_cursor_idx) {
        None => {},
        Some(pos) => {
            if up && pos > 0 {
                state.surah_cursor_idx = filtered[pos - 1];
            } else if !up && pos + 1 < filtered.len() {
                state.surah_cursor_idx = filtered[pos + 1];
            }
        },
    }
    assert(state@ =~= cursor_moved(old(state)@, up));
}

fn refresh_filter(state: &mut TuiState, cleared_when_empty: bool)
    requires
        old(state).wf(),
    ensures
        final(state).wf(),
        final(state)@ == ({
            let s2 = cursor_clamped_view(
                old(state)@,
                filtered_surahs(old(state)@.surahs, old(state)@.surah_filter),
            );
            with_status(s2, filter_status(s2, cleared_when_empty))
        }),
{
    state.clamp_surah_cursor_to_filter();
    let hits = state.filtered_surah_indices().len();
    if cleared_when_empty && state.surah_filter.as_str().unicode_len() == 0 {
        state.status = string_of("Filter surat dibersihkan.");
    } else if !cleared_when_empty && hits == 0 {
        let mut s = string_of("Filter '");
        append_str(&mut s, state.surah_filter.as_str());
        append_str(&mut s, "' tidak ada hasil.");
        state.status = s;
    } else {
        state.status = filter_status_string(state.surah_filter.as_str(), hits);
    }
}

fn toggle_sidebar(state: &mut TuiState, w: u16, h: u16)
    requires
        old(state).wf(),
    ensures
        final(state).wf(),
        final(state)@ == sidebar_toggled(old(state)@, w, h),
{
    if state.sidebar_collapsed {
        if can_show_sidebar_in_frame(Rect::new(0, 0, w, h)) {
            state.sidebar_collapsed = false;
            state.focus = PaneFocus::SurahCards;
            state.status = string_of(
                "Panel surat dibuka. Ketik untuk filter, Enter untuk membuka surat.",
            );
        } else {
            state.focus = PaneFocus::AyahReader;
            state.status = string_of("Ukuran terminal terlalu kecil untuk panel surat.");
        }
    } else {
        state.sidebar_collapsed = true;
        state.focus = PaneFocus::AyahReader;
        state.status = string_of("Mode baca penuh aktif. Tekan Ctrl+B untuk membuka panel surat.");
    }
    assert(state@ =~= sidebar_toggled(old(state)@, w, h));
}

fn down_one(idx: usize, len: usize) -> (r: usize)
    ensures
        r == step_down(idx, len as nat),
{
    if len == 0 {
        idx
    } else if idx < len - 1 {
        idx + 1
    } else {
        len - 1
    }
}

fn up_one(idx: usize) -> (r: usize)
    ensures
        r == pred_or_zero(idx as int),
{
    if idx > 0 {
        idx - 1
    } else {
        0
    }
}

/// Carries out an intent that needs no repository.
pub fn apply_pure_intent(state: &mut TuiState, intent: Intent, w: u16, h: u16)
    requires
        old(state).wf(),
        is_pure_intent(intent),
    ensures
        final(state).wf(),
        final(state)@ == pure_effect(old(state)@, intent, w, h),
{
    match intent {
        Intent::TogglePlayback => state.start_or_toggle_playback(),
        Intent::AudioStop => state.stop_playback(),
        Intent::AudioNext => step_player(state, true),
        Intent::AudioPrev => step_player(state, false),
        Intent::AudioRepeat => repeat_player(state),
        Intent::AudioSpeedDown => change_speed(state, false),
        Intent::AudioSpeedUp => change_speed(state, true),
        Intent::CycleQari => cycle_qari(state),
        Intent::FocusNextPane => cycle_focus(state),
        Intent::SurahCursorUp => move_cursor(state, true),
        Intent::SurahCursorDown => move_cursor(state, false),
        Intent::SurahFilterType(c) => {
            if !char_is_control(c) {
                push_char(&mut state.surah_filter, c);
                refresh_filter(state, false);
            }
        },
        Intent::SurahFilterBackspace => {
            let _ = pop_char(&mut state.surah_filter);
            refresh_filter(state, true);
        },
        Intent::SurahFilterClear => {
            state.surah_filter = String::new();
            state.surah_cursor_idx = state.selected_surah_idx;
            state.status = string_of("Filter surat dibersihkan.");
        },
        Intent::ToggleSidebar => toggle_sidebar(state, w, h),
        Intent::ToggleHelp => {
            state.mode = UiMode::HelpOverlay;
        },
        Intent::OpenPalette => {
            state.mode = UiMode::CommandPalette;
            state.palette_input = String::new();
            state.palette_selected_idx = 0;
        },
        Intent::OpenSearch => {
            state.mode = UiMode::SearchInline;
            state.search_input = String::new();
            state.search_results = Vec::new();
            state.selected_search_idx = 0;
        },
        Intent::CloseOverlay => {
            state.mode = UiMode::Reading;
        },
        Intent::PaletteMoveUp => {
            state.palette_selected_idx = up_one(state.palette_selected_idx);
        },
        Intent::PaletteMoveDown => {
            let len = state.filtered_palette().len();
            state.palette_selected_idx = down_one(state.palette_selected_idx, len);
        },
        Intent::PaletteBackspace => {
            let _ = pop_char(&mut state.palette_input);
            state.palette_selected_idx = 0;
        },
        Intent::PaletteType(c) => {
            if !char_is_control(c) {
                push_char(&mut state.palette_input, c);
                state.palette_selected_idx = 0;
            }
        },
        Intent::SearchMoveUp => {
            state.selected_search_idx = up_one(state.selected_search_idx);
        },
        Intent::SearchMoveDown => {
            let len = state.search_results.len();
            state.selected_search_idx = down_one(state.selected_search_idx, len);
        },
        Intent::SearchBackspace => {
            let _ = pop_char(&mut state.search_input);
        },
        Intent::SearchType(c) => {
            if !char_is_control(c) {
                push_char(&mut state.search_input, c);
            }
        },
        Intent::BookmarkMoveUp => {
            state.selected_bookmark_idx = up_one(state.selected_bookmark_idx);
        },
        Intent::BookmarkMoveDown => {
            let len = state.bookmarks.len();
            state.selected_bookmark_idx = down_one(state.selected_bookmark_idx, len);
        },
        Intent::CycleTheme => {
            state.next_theme();
            let mut status = string_of("Tema diubah ke: ");
            append_str(&mut status, state.current_theme().name.as_str());
            state.status = status;
        },
        _ => {},
    }
    assert(state@ =~= pure_effect(old(state)@, intent, w, h));
}


// ---------------------------------------------------------------------------
// Intents that use the repositories
// ---------------------------------------------------------------------------

pub open spec fn valid_ayah_no(n: u16) -> bool {
    1 <= n <= 286
}

/// A paused player is dropped before the selection moves.
pub open spec fn pause_canceled(s: TuiView) -> bool {
    s.player matches Some(p) && p.paused
}

pub open spec fn nav_stopped(s: TuiView) -> TuiView {
    if pause_canceled(s) {
        stopped_view(s)
    } else {
        s
    }
}

/// The selection can move one ayah forward or back.
pub open spec fn ayah_can_move(s: TuiView, forward: bool) -> bool {
    if forward {
        s.selected_ayah_idx + 1 < s.ayahs.len()
    } else {
        s.selected_ayah_idx > 0
    }
}

/// The selection moved one ayah (after a paused player was dropped), before
/// the progress is stored.
pub open spec fn ayah_moved_view(s: TuiView, forward: bool) -> TuiView {
    let s1 = nav_stopped(s);
    if ayah_can_move(s1, forward) {
        TuiView {
            selected_ayah_idx: (if forward {
                s1.selected_ayah_idx + 1
            } else {
                s1.selected_ayah_idx - 1
            }) as usize,
            ..s1
        }
    } else {
        s1
    }
}

pub open spec fn pause_canceled_at_status(a: AyahView) -> Seq<char> {
    "Audio pause dibatalkan. Ayat aktif "@ + decimal(a.surah_no as nat) + ":"@ + decimal(
        a.ayah_no as nat,
    )
}

pub open spec fn pause_canceled_status() -> Seq<char> {
    "Audio pause dibatalkan."@
}

/// After the move, the position is stored: the selection moved onto an ayah
/// of the list.
pub open spec fn ayah_nav_stores(s: TuiView, forward: bool) -> bool {
    let s2 = ayah_moved_view(s, forward);
    ayah_can_move(nav_stopped(s), forward) && s2.selected_ayah_idx < s2.ayahs.len()
}

/// j/k: the selection moved and, when a paused player was dropped, the status
/// says so.
pub open spec fn ayah_navigated(s: TuiView, forward: bool) -> TuiView {
    let s2 = ayah_moved_view(s, forward);
    if ayah_can_move(nav_stopped(s), forward) {
        if ayah_nav_stores(s, forward) && pause_canceled(s) {
            with_status(s2, pause_canceled_at_status(s2.ayahs[s2.selected_ayah_idx as int]))
        } else {
            s2
        }
    } else if pause_canceled(s) {
        with_status(s2, pause_canceled_status())
    } else {
        s2
    }
}

/// j/k succeeds exactly when no position needs storing, or the ayah's
/// numbers are valid and the store accepts them; on a failure the selection
/// has moved and nothing else.
pub open spec fn ayah_nav_post(
    p: TuiView,
    q: TuiView,
    forward: bool,
    w: u16,
    h: u16,
    r: Result<bool, UseCaseError>,
) -> bool {
    let s2 = ayah_moved_view(p, forward);
    let stores = ayah_nav_stores(p, forward);
    let a = s2.ayahs[s2.selected_ayah_idx as int];
    &&& r matches Ok(b) ==> !b && q == fitted(ayah_navigated(p, forward), w, h)
    &&& r is Err ==> stores && q == s2
    &&& !stores ==> r is Ok
    &&& stores && !(valid_surah_no(a.surah_no) && valid_ayah_no(a.ayah_no)) ==> (r matches Err(e)
        && e is Domain)
    &&& r matches Err(e) ==> (e is Infra || !(valid_surah_no(a.surah_no) && valid_ayah_no(
        a.ayah_no,
    )))
}

/// The surah to open, if any, and the state just before its ayahs are read.
pub open spec fn surah_switch(s: TuiView, intent: Intent) -> Option<TuiView> {
    match intent {
        Intent::NextSurah => {
            let s1 = stopped_view(s);
            if s1.selected_surah_idx + 1 < s1.surahs.len() {
                let i = (s1.selected_surah_idx + 1) as usize;
                Some(
                    TuiView {
                        selected_surah_idx: i,
                        surah_cursor_idx: i,
                        selected_ayah_idx: 0,
                        ..s1
                    },
                )
            } else {
                None
            }
        },
        Intent::PrevSurah => {
            let s1 = stopped_view(s);
            if s1.selected_surah_idx > 0 {
                let i = (s1.selected_surah_idx - 1) as usize;
                Some(
                    TuiView {
                        selected_surah_idx: i,
                        surah_cursor_idx: i,
                        selected_ayah_idx: 0,
                        ..s1
                    },
                )
            } else {
                None
            }
        },
        _ => {
            if s.surah_cursor_idx != s.selected_surah_idx {
                let s1 = stopped_view(s);
                Some(
                    TuiView { selected_surah_idx: s.surah_cursor_idx, selected_ayah_idx: 0, ..s1 },
                )
            } else {
                None
            }
        },
    }
}

/// What stands when no surah opens.
pub open spec fn surah_unswitched(s: TuiView, intent: Intent) -> TuiView {
    match intent {
        Intent::NextSurah | Intent::PrevSurah => stopped_view(s),
        _ => s,
    }
}

/// Reading the ayahs of the surah that `pre` selects: on success the state
/// is `loaded_view` of what was read; a failure changes nothing, and comes
/// from the store or from a surah number out of range.
pub open spec fn load_post(
    pre: TuiView,
    q: TuiView,
    w: u16,
    h: u16,
    r: Result<bool, UseCaseError>,
) -> bool {
    let no = pre.surahs[pre.selected_surah_idx as int].surah_no;
    &&& r matches Ok(b) ==> !b && q == fitted(loaded_view(pre, q.ayahs), w, h)
    &&& r is Err ==> q == pre
    &&& !valid_surah_no(no) ==> (r matches Err(UseCaseError::Domain(DomainError::InvalidSurah(v)))
        && v == no)
    &&& r matches Err(e) ==> (e is Infra || !valid_surah_no(no))
}

/// n/p/Enter on a surah card: playback stops and the surah opens.
pub open spec fn surah_nav_post(
    p: TuiView,
    q: TuiView,
    intent: Intent,
    w: u16,
    h: u16,
    r: Result<bool, UseCaseError>,
) -> bool {
    match surah_switch(p, intent) {
        Some(pre) => load_post(pre, q, w, h, r),
        None => r == Ok::<bool, UseCaseError>(false) && q == fitted(surah_unswitched(p, intent), w, h),
    }
}

/// The bookmark list opens with whatever the store lists.
pub open spec fn bookmarks_opened_post(
    p: TuiView,
    q: TuiView,
    w: u16,
    h: u16,
    r: Result<bool, UseCaseError>,
) -> bool {
    &&& r matches Ok(b) ==> !b && q == fitted(
        TuiView {
            bookmarks: q.bookmarks,
            selected_bookmark_idx: 0,
            mode: UiMode::BookmarkOverlay,
            ..p
        },
        w,
        h,
    )
    &&& r matches Err(e) ==> e is Infra && q == p
}

pub open spec fn bookmark_added_status(id: i64, surah_no: u16, ayah_no: u16) -> Seq<char> {
    "Bookmark #"@ + signed_decimal(id as int) + " ditambahkan ("@ + decimal(surah_no as nat) + ":"@
        + decimal(ayah_no as nat) + ")"@
}

/// The current ayah is bookmarked; the status gives the new bookmark's id.
pub open spec fn bookmark_added_post(
    p: TuiView,
    q: TuiView,
    w: u16,
    h: u16,
    r: Result<bool, UseCaseError>,
) -> bool {
    let a = p.ayahs[p.selected_ayah_idx as int];
    if p.selected_ayah_idx >= p.ayahs.len() {
        r == Ok::<bool, UseCaseError>(false) && q == fitted(p, w, h)
    } else {
        &&& r matches Ok(b) ==> !b && exists|id: i64|
            id > 0 && q == fitted(
                with_status(p, bookmark_added_status(id, a.surah_no, a.ayah_no)),
                w,
                h,
            )
        &&& r is Err ==> q == p
        &&& !(valid_surah_no(a.surah_no) && valid_ayah_no(a.ayah_no)) ==> (r matches Err(e)
            && e is Domain)
        &&& r matches Err(e) ==> (e is Infra || !(valid_surah_no(a.surah_no) && valid_ayah_no(
            a.ayah_no,
        )))
    }
}

pub open spec fn no_active_ayah_status() -> Seq<char> {
    "Tidak ada ayat aktif untuk unbookmark."@
}

pub open spec fn no_bookmark_here_status(surah_no: u16, ayah_no: u16) -> Seq<char> {
    "Belum ada bookmark pada ayat aktif "@ + decimal(surah_no as nat) + ":"@ + decimal(
        ayah_no as nat,
    ) + "."@
}

pub open spec fn bookmarks_removed_status(n: nat, surah_no: u16, ayah_no: u16) -> Seq<char> {
    decimal(n) + " bookmark dihapus dari ayat "@ + decimal(surah_no as nat) + ":"@ + decimal(
        ayah_no as nat,
    ) + "."@
}

/// The bookmarks of a listing that point at one ayah, in order.
pub open spec fn bookmarks_at_spec(v: Seq<BookmarkView>, surah_no: u16, ayah_no: u16) -> Seq<
    BookmarkView,
>
    decreases v.len(),
{
    if v.len() == 0 {
        seq![]
    } else {
        let prev = bookmarks_at_spec(v.drop_last(), surah_no, ayah_no);
        if v.last().surah_no == surah_no && v.last().ayah_no == ayah_no {
            prev.push(v.last())
        } else {
            prev
        }
    }
}

/// The state after `n` bookmarks of one ayah were removed: an open bookmark
/// list shows the store's new listing, with the selection kept within it.
pub open spec fn bookmarks_removed_view(
    p: TuiView,
    listing: Seq<BookmarkView>,
    n: nat,
    surah_no: u16,
    ayah_no: u16,
) -> TuiView {
    let status = bookmarks_removed_status(n, surah_no, ayah_no);
    if p.mode == UiMode::BookmarkOverlay {
        TuiView {
            bookmarks: listing,
            selected_bookmark_idx: min_int(
                p.selected_bookmark_idx as int,
                pred_or_zero(listing.len() as int),
            ) as usize,
            status,
            ..p
        }
    } else {
        with_status(p, status)
    }
}

/// All bookmarks of the current ayah are removed; the status says how many,
/// or that there were none.
pub open spec fn bookmarks_removed_post(
    p: TuiView,
    q: TuiView,
    w: u16,
    h: u16,
    r: Result<bool, UseCaseError>,
) -> bool {
    let a = p.ayahs[p.selected_ayah_idx as int];
    if p.selected_ayah_idx >= p.ayahs.len() {
        r == Ok::<bool, UseCaseError>(false) && q == fitted(
            with_status(p, no_active_ayah_status()),
            w,
            h,
        )
    } else {
        &&& r matches Ok(b) ==> !b && (q == fitted(
            with_status(p, no_bookmark_here_status(a.surah_no, a.ayah_no)),
            w,
            h,
        ) || exists|n: nat|
            n > 0 && q == fitted(
                bookmarks_removed_view(p, q.bookmarks, n, a.surah_no, a.ayah_no),
                w,
                h,
            ))
        &&& r is Err ==> q == p
    }
}

pub open spec fn empty_query_status() -> Seq<char> {
    "Query kosong"@
}

pub open spec fn hits_found_status(n: nat) -> Seq<char> {
    decimal(n) + " hasil ditemukan"@
}

pub open spec fn jumped_status(surah_no: u16, ayah_no: u16) -> Seq<char> {
    "Lompat ke "@ + decimal(surah_no as nat) + ":"@ + decimal(ayah_no as nat)
}

/// Enter in the search box: with no results yet, the trimmed query is
/// searched (at most 8 hits); with results, the reader jumps to the selected
/// one and the box closes.
pub open spec fn search_submitted_post(
    p: TuiView,
    q: TuiView,
    w: u16,
    h: u16,
    r: Result<bool, UseCaseError>,
) -> bool {
    if p.search_results.len() == 0 {
        if trim(p.search_input).len() == 0 {
            r == Ok::<bool, UseCaseError>(false) && q == fitted(
                with_status(p, empty_query_status()),
                w,
                h,
            )
        } else {
            &&& r matches Ok(b) ==> !b && q == fitted(
                TuiView {
                    search_results: q.search_results,
                    selected_search_idx: 0,
                    status: hits_found_status(q.search_results.len()),
                    ..p
                },
                w,
                h,
            )
            &&& r matches Err(e) ==> e is Infra && q == p
        }
    } else if p.selected_search_idx < p.search_results.len() {
        let hit = p.search_results[p.selected_search_idx as int];
        let pre = jumped_view(p, hit.surah_no, hit.ayah_no);
        let no = pre.surahs[pre.selected_surah_idx as int].surah_no;
        &&& r matches Ok(b) ==> !b && q == fitted(
            TuiView {
                status: jumped_status(hit.surah_no, hit.ayah_no),
                mode: UiMode::Reading,
                ..loaded_view(pre, q.ayahs)
            },
            w,
            h,
        )
        &&& r is Err ==> q == pre
        &&& r matches Err(e) ==> (e is Infra || !valid_surah_no(no))
    } else {
        r == Ok::<bool, UseCaseError>(false) && q == fitted(p, w, h)
    }
}

pub open spec fn nothing_to_delete_status() -> Seq<char> {
    "Belum ada bookmark untuk dihapus."@
}

pub open spec fn bookmark_deleted_status(id: i64, surah_no: u16, ayah_no: u16) -> Seq<char> {
    "Bookmark #"@ + signed_decimal(id as int) + " dihapus ("@ + decimal(surah_no as nat) + ":"@
        + decimal(ayah_no as nat) + ")."@
}

/// The selected bookmark is removed and the list shows the store's new
/// listing, with the selection kept within it.
pub open spec fn bookmark_deleted_post(
    p: TuiView,
    q: TuiView,
    w: u16,
    h: u16,
    r: Result<bool, UseCaseError>,
) -> bool {
    if p.selected_bookmark_idx >= p.bookmarks.len() {
        r == Ok::<bool, UseCaseError>(false) && q == fitted(
            with_status(p, nothing_to_delete_status()),
            w,
            h,
        )
    } else {
        let b = p.bookmarks[p.selected_bookmark_idx as int];
        &&& r matches Ok(x) ==> !x && q == fitted(
            TuiView {
                bookmarks: q.bookmarks,
                selected_bookmark_idx: min_int(
                    p.selected_bookmark_idx as int,
                    pred_or_zero(q.bookmarks.len() as int),
                ) as usize,
                status: bookmark_deleted_status(b.id, b.surah_no, b.ayah_no),
                ..p
            },
            w,
            h,
        )
        &&& r is Err ==> q == p
        &&& b.id <= 0 ==> (r matches Err(UseCaseError::Domain(DomainError::InvalidBookmarkId(v)))
            && v == b.id)
        &&& r matches Err(e) ==> (e is Infra || b.id <= 0)
    }
}

pub open spec fn bookmark_jump_status(id: i64, surah_no: u16, ayah_no: u16) -> Seq<char> {
    "Lompat ke bookmark #"@ + signed_decimal(id as int) + " ("@ + decimal(surah_no as nat) + ":"@
        + decimal(ayah_no as nat) + ")"@
}

/// Enter in the bookmark list: the reader jumps to the selected bookmark and
/// the list closes.
pub open spec fn bookmark_jumped_post(
    p: TuiView,
    q: TuiView,
    w: u16,
    h: u16,
    r: Result<bool, UseCaseError>,
) -> bool {
    if p.selected_bookmark_idx >= p.bookmarks.len() {
        r == Ok::<bool, UseCaseError>(false) && q == fitted(
            TuiView { mode: UiMode::Reading, ..p },
            w,
            h,
        )
    } else {
        let b = p.bookmarks[p.selected_bookmark_idx as int];
        let pre = jumped_view(p, b.surah_no, b.ayah_no);
        let no = pre.surahs[pre.selected_surah_idx as int].surah_no;
        &&& r matches Ok(x) ==> !x && q == fitted(
            TuiView {
                status: bookmark_jump_status(b.id, b.surah_no, b.ayah_no),
                mode: UiMode::Reading,
                ..loaded_view(pre, q.ayahs)
            },
            w,
            h,
        )
        &&& r is Err ==> q == pre
        &&& r matches Err(e) ==> (e is Infra || !valid_surah_no(no))
    }
}

/// What an intent other than the palette's Enter does.
pub open spec fn basic_post(
    p: TuiView,
    q: TuiView,
    intent: Intent,
    w: u16,
    h: u16,
    r: Result<bool, UseCaseError>,
) -> bool {
    if is_pure_intent(intent) {
        r == Ok::<bool, UseCaseError>(false) && q == fitted(pure_effect(p, intent, w, h), w, h)
    } else {
        match intent {
            Intent::Quit => r == Ok::<bool, UseCaseError>(true) && q == p,
            Intent::NextAyah => ayah_nav_post(p, q, true, w, h, r),
            Intent::PrevAyah => ayah_nav_post(p, q, false, w, h, r),
            Intent::NextSurah | Intent::PrevSurah | Intent::SurahCursorSelect => surah_nav_post(
                p,
                q,
                intent,
                w,
                h,
                r,
            ),
            Intent::OpenBookmarks => bookmarks_opened_post(p, q, w, h, r),
            Intent::AddBookmark => bookmark_added_post(p, q, w, h, r),
            Intent::RemoveCurrentAyahBookmarks => bookmarks_removed_post(p, q, w, h, r),
            Intent::SearchSubmit => search_submitted_post(p, q, w, h, r),
            Intent::BookmarkDelete => bookmark_deleted_post(p, q, w, h, r),
            Intent::BookmarkJump => bookmark_jumped_post(p, q, w, h, r),
            _ => false,
        }
    }
}

fn fit_to_frame(state: &mut TuiState, w: u16, h: u16)
    requires
        old(state).wf(),
    ensures
        final(state).wf(),
        final(state)@ == fitted(old(state)@, w, h),
{
    if !can_show_sidebar_in_frame(Rect::new(0, 0, w, h)) {
        state.sidebar_collapsed = true;
        state.focus = PaneFocus::AyahReader;
    }
    assert(state@ =~= fitted(old(state)@, w, h));
}

fn stop_paused_playback_for_navigation(state: &mut TuiState) -> (canceled: bool)
    requires
        old(state).wf(),
    ensures
        final(state).wf(),
        canceled == pause_canceled(old(state)@),
        final(state)@ == nav_stopped(old(state)@),
{
    let paused = match &state.player {
        Some(p) => p.is_paused(),
        None => false,
    };
    if paused {
        state.stop_playback();
    }
    paused
}

fn navigate_ayah<S: ProgressRepository>(
    state_repo: &S,
    state: &mut TuiState,
    forward: bool,
    w: u16,
    h: u16,
) -> (r: Result<bool, UseCaseError>)
    requires
        old(state).wf(),
    ensures
        final(state).wf(),
        ayah_nav_post(old(state)@, final(state)@, forward, w, h, r),
{
    let canceled = stop_paused_playback_for_navigation(state);
    let len = state.ayahs.len();
    let moved = if forward {
        len > 0 && state.selected_ayah_idx < len - 1
    } else {
        state.selected_ayah_idx > 0
    };
    if moved {
        if forward {
            state.selected_ayah_idx = state.selected_ayah_idx + 1;
        } else {
            state.selected_ayah_idx = state.selected_ayah_idx - 1;
        }
        assert(state@ =~= ayah_moved_view(old(state)@, forward));
        let i = state.selected_ayah_idx;
        if i < state.ayahs.len() {
            assert(ayahs_view(state.ayahs@)[i as int] == state.ayahs@[i as int]@);
            let surah_no = state.ayahs[i].surah_no;
            let ayah_no = state.ayahs[i].ayah_no;
            let target = match ayah_ref_from_raw(surah_no, ayah_no) {
                Ok(t) => t,
                Err(e) => return Err(e),
            };
            match state_repo.set_progress(target) {
                Ok(()) => {},
                Err(e) => return Err(UseCaseError::Infra(e)),
            }
            if canceled {
                let mut status = string_of("Audio pause dibatalkan. Ayat aktif ");
                push_decimal(&mut status, surah_no as u64);
                append_str(&mut status, ":");
                push_decimal(&mut status, ayah_no as u64);
                state.status = status;
            }
        }
    } else if canceled {
        state.status = string_of("Audio pause dibatalkan.");
    }
    assert(state@ =~= ayah_navigated(old(state)@, forward));
    fit_to_frame(state, w, h);
    Ok(false)
}

fn navigate_surah<R: QuranReadRepository>(
    read_repo: &R,
    lang: &LanguageTag,
    state: &mut TuiState,
    intent: Intent,
    w: u16,
    h: u16,
) -> (r: Result<bool, UseCaseError>)
    requires
        old(state).wf(),
        intent == Intent::NextSurah || intent == Intent::PrevSurah || intent
            == Intent::SurahCursorSelect,
    ensures
        final(state).wf(),
        surah_nav_post(old(state)@, final(state)@, intent, w, h, r),
{
    let target: Option<usize> = match intent {
        Intent::NextSurah => {
            state.stop_playback();
            let len = state.surahs.len();
            if state.selected_surah_idx < len - 1 {
                Some(state.selected_surah_idx + 1)
            } else {
                None
            }
        },
        Intent::PrevSurah => {
            state.stop_playback();
            if state.selected_surah_idx > 0 {
                Some(state.selected_surah_idx - 1)
            } else {
                None
            }
        },
        _ => {
            if state.surah_cursor_idx != state.selected_surah_idx {
                state.stop_playback();
                Some(state.surah_cursor_idx)
            } else {
                None
            }
        },
    };
    match target {
        None => {
            fit_to_frame(state, w, h);
            Ok(false)
        },
        Some(i) => {
            state.selected_surah_idx = i;
            if intent != Intent::SurahCursorSelect {
                state.surah_cursor_idx = i;
            }
            state.selected_ayah_idx = 0;
            assert(Some(state@) == surah_switch(old(state)@, intent));
            match state.load_surah(read_repo, lang) {
                Ok(()) => {
                    fit_to_frame(state, w, h);
                    Ok(false)
                },
                Err(e) => Err(e),
            }
        },
    }
}

fn open_bookmarks<S: BookmarkRepository>(state_repo: &S, state: &mut TuiState, w: u16, h: u16) -> (r:
    Result<bool, UseCaseError>)
    requires
        old(state).wf(),
    ensures
        final(state).wf(),
        bookmarks_opened_post(old(state)@, final(state)@, w, h, r),
        r is Ok ==> exists|l: Vec<Bookmark>|
            #[trigger] state_repo.list_answer(Ok(l)) && final(state)@.bookmarks == bookmarks_view(
                l@,
            ),
{
    match state_repo.list_bookmarks() {
        Ok(list) => {
            proof {
                assert(state_repo.list_answer(Ok(list)));
            }
            state.bookmarks = list;
            state.selected_bookmark_idx = 0;
            state.mode = UiMode::BookmarkOverlay;
            fit_to_frame(state, w, h);
            Ok(false)
        },
        Err(e) => Err(UseCaseError::Infra(e)),
    }
}

fn add_bookmark_here<S: BookmarkRepository>(state_repo: &S, state: &mut TuiState, w: u16, h: u16) -> (r:
    Result<bool, UseCaseError>)
    requires
        old(state).wf(),
    ensures
        final(state).wf(),
        bookmark_added_post(old(state)@, final(state)@, w, h, r),
        ({
            let p = old(state)@;
            let a = p.ayahs[p.selected_ayah_idx as int];
            p.selected_ayah_idx < p.ayahs.len() && r is Ok ==> exists|id: BookmarkId|
                #[trigger] state_repo.add_answer(
                    (a.surah_no, a.ayah_no),
                    Some("from-modern-tui"@),
                    Ok(id),
                ) && final(state)@ == fitted(
                    with_status(p, bookmark_added_status(id@, a.surah_no, a.ayah_no)),
                    w,
                    h,
                )
        }),
{
    let i = state.selected_ayah_idx;
    if i >= state.ayahs.len() {
        fit_to_frame(state, w, h);
        return Ok(false);
    }
    assert(ayahs_view(state.ayahs@)[i as int] == state.ayahs@[i as int]@);
    let surah_no = state.ayahs[i].surah_no;
    let ayah_no = state.ayahs[i].ayah_no;
    let target = match ayah_ref_from_raw(surah_no, ayah_no) {
        Ok(t) => t,
        Err(e) => return Err(e),
    };
    let id = match state_repo.add_bookmark(target, Some("from-modern-tui")) {
        Ok(id) => id,
        Err(e) => return Err(UseCaseError::Infra(e)),
    };
    proof {
        assert(state_repo.add_answer((surah_no, ayah_no), Some("from-modern-tui"@), Ok(id)));
    }
    let id_value = id.value();
    let mut status = string_of("Bookmark #");
    push_signed_decimal(&mut status, id_value);
    append_str(&mut status, " ditambahkan (");
    push_decimal(&mut status, surah_no as u64);
    append_str(&mut status, ":");
    push_decimal(&mut status, ayah_no as u64);
    append_str(&mut status, ")");
    state.status = status;
    assert(state@ =~= with_status(old(state)@, bookmark_added_status(id_value, surah_no, ayah_no)));
    fit_to_frame(state, w, h);
    Ok(false)
}

/// The bookmarks of a listing that point at one ayah, in order.
pub fn bookmarks_at(list: &Vec<Bookmark>, surah_no: u16, ayah_no: u16) -> (r: Vec<Bookmark>)
    ensures
        bookmarks_view(r@) == bookmarks_at_spec(bookmarks_view(list@), surah_no, ayah_no),
{
    let n = list.len();
    let mut out: Vec<Bookmark> = Vec::new();
    let mut i: usize = 0;
    while i < n
        invariant
            n == list@.len(),
            i <= n,
            bookmarks_view(out@) == bookmarks_at_spec(
                bookmarks_view(list@).subrange(0, i as int),
                surah_no,
                ayah_no,
            ),
        decreases n - i,
    {
        let ghost before = out@;
        assert(bookmarks_view(list@).subrange(0, i + 1).drop_last() =~= bookmarks_view(
            list@,
        ).subrange(0, i as int));
        assert(bookmarks_view(list@)[i as int] == list@[i as int]@);
        if list[i].surah_no == surah_no && list[i].ayah_no == ayah_no {
            let b = Bookmark {
                id: list[i].id,
                surah_no: list[i].surah_no,
                ayah_no: list[i].ayah_no,
                note: crate::domain::clone_opt(&list[i].note),
                created_at: list[i].created_at.clone(),
            };
            out.push(b);
            assert(bookmarks_view(out@) =~= bookmarks_view(before).push(list@[i as int]@));
        }
        i = i + 1;
    }
    assert(bookmarks_view(list@).subrange(0, n as int) =~= bookmarks_view(list@));
    out
}

/// The store answered a request to remove bookmark `id` with success.
pub open spec fn removal_done<S: BookmarkRepository>(repo: &S, id: i64) -> bool {
    exists|n: usize| #[trigger] repo.removal_answer(id, Ok(n))
}

/// Every listed bookmark was removed from the store.
pub open spec fn removed_all<S: BookmarkRepository>(repo: &S, list: Seq<BookmarkView>) -> bool {
    forall|k: int| 0 <= k < list.len() ==> #[trigger] removal_done(repo, list[k].id)
}

/// Asks the store to remove each bookmark, in order, stopping at the first
/// failure.
fn remove_ids<S: BookmarkRepository>(state_repo: &S, matches: &Vec<Bookmark>) -> (r: Result<
    (),
    UseCaseError,
>)
    ensures
        r is Ok ==> forall|i: int| 0 <= i < matches@.len() ==> #[trigger] matches@[i].id > 0,
        r is Ok ==> removed_all(state_repo, bookmarks_view(matches@)),
        r matches Err(e) ==> (e is Infra || (e matches UseCaseError::Domain(
            DomainError::InvalidBookmarkId(v),
        ) && v <= 0)),
{
    let n = matches.len();
    let mut i: usize = 0;
    while i < n
        invariant
            n == matches@.len(),
            i <= n,
            forall|k: int| 0 <= k < i ==> #[trigger] matches@[k].id > 0,
            forall|k: int| 0 <= k < i ==> removal_done(state_repo, #[trigger] matches@[k].id),
        decreases n - i,
    {
        let id = match BookmarkId::new(matches[i].id) {
            Ok(id) => id,
            Err(e) => return Err(UseCaseError::Domain(e)),
        };
        match state_repo.remove_bookmark(id) {
            Ok(n) => {
                proof {
                    assert(state_repo.removal_answer(matches@[i as int].id, Ok(n)));
                }
            },
            Err(e) => return Err(UseCaseError::Infra(e)),
        }
        i = i + 1;
    }
    proof {
        assert forall|k: int| 0 <= k < bookmarks_view(matches@).len() implies #[trigger] removal_done(
            state_repo,
            bookmarks_view(matches@)[k].id,
        ) by {
            assert(bookmarks_view(matches@)[k] == matches@[k]@);
            assert(removal_done(state_repo, matches@[k].id));
        }
    }
    Ok(())
}

/// Removes every bookmark of the current ayah.
pub fn remove_current_ayah_bookmarks<S: BookmarkRepository>(
    state_repo: &S,
    state: &mut TuiState,
) -> (r: Result<(), UseCaseError>)
    requires
        old(state).wf(),
    ensures
        final(state).wf(),
        ({
            let p = old(state)@;
            let q = final(state)@;
            let a = p.ayahs[p.selected_ayah_idx as int];
            &&& p.selected_ayah_idx >= p.ayahs.len() ==> r is Ok && q == with_status(
                p,
                no_active_ayah_status(),
            )
            &&& p.selected_ayah_idx < p.ayahs.len() && r is Ok ==> (q == with_status(
                p,
                no_bookmark_here_status(a.surah_no, a.ayah_no),
            ) || exists|n: nat|
                n > 0 && q == bookmarks_removed_view(p, q.bookmarks, n, a.surah_no, a.ayah_no))
            &&& r is Err ==> q == p
            &&& p.selected_ayah_idx < p.ayahs.len() && r is Ok ==> exists|l: Vec<Bookmark>|
                #[trigger] state_repo.list_answer(Ok(l)) && removed_all(
                    state_repo,
                    bookmarks_at_spec(bookmarks_view(l@), a.surah_no, a.ayah_no),
                )
        }),
{
    let i = state.selected_ayah_idx;
    if i >= state.ayahs.len() {
        state.status = string_of("Tidak ada ayat aktif untuk unbookmark.");
        assert(state@ =~= with_status(old(state)@, no_active_ayah_status()));
        return Ok(());
    }
    assert(ayahs_view(state.ayahs@)[i as int] == state.ayahs@[i as int]@);
    let surah_no = state.ayahs[i].surah_no;
    let ayah_no = state.ayahs[i].ayah_no;
    let listing = match state_repo.list_bookmarks() {
        Ok(l) => l,
        Err(e) => return Err(UseCaseError::Infra(e)),
    };
    proof {
        assert(state_repo.list_answer(Ok(listing)));
    }
    let matches = bookmarks_at(&listing, surah_no, ayah_no);
    if matches.len() == 0 {
        let mut status = string_of("Belum ada bookmark pada ayat aktif ");
        push_decimal(&mut status, surah_no as u64);
        append_str(&mut status, ":");
        push_decimal(&mut status, ayah_no as u64);
        append_str(&mut status, ".");
        state.status = status;
        assert(state@ =~= with_status(old(state)@, no_bookmark_here_status(surah_no, ayah_no)));
        return Ok(());
    }
    let removed = matches.len();
    match remove_ids(state_repo, &matches) {
        Ok(()) => {},
        Err(e) => return Err(e),
    }
    if state.mode == UiMode::BookmarkOverlay {
        let fresh = match state_repo.list_bookmarks() {
            Ok(l) => l,
            Err(e) => return Err(UseCaseError::Infra(e)),
        };
        state.bookmarks = fresh;
        let len = state.bookmarks.len();
        let last = if len > 0 {
            len - 1
        } else {
            0
        };
        if state.selected_bookmark_idx > last {
            state.selected_bookmark_idx = last;
        }
    }
    let mut status = String::new();
    push_decimal(&mut status, removed as u64);
    append_str(&mut status, " bookmark dihapus dari ayat ");
    push_decimal(&mut status, surah_no as u64);
    append_str(&mut status, ":");
    push_decimal(&mut status, ayah_no as u64);
    append_str(&mut status, ".");
    state.status = status;
    assert(state@ =~= bookmarks_removed_view(
        old(state)@,
        state@.bookmarks,
        removed as nat,
        surah_no,
        ayah_no,
    ));
    Ok(())
}

fn submit_search<R: QuranReadRepository>(
    read_repo: &R,
    lang: &LanguageTag,
    state: &mut TuiState,
    w: u16,
    h: u16,
) -> (r: Result<bool, UseCaseError>)
    requires
        old(state).wf(),
    ensures
        final(state).wf(),
        search_submitted_post(old(state)@, final(state)@, w, h, r),
        (old(state)@.search_results.len() == 0 && final(state)@.search_results.len() > 0)
            ==> exists|hits: Vec<SearchHit>|
            #[trigger] read_repo.search_answer(
                trim(old(state)@.search_input),
                true,
                true,
                8,
                Ok(hits),
            ) && final(state)@.search_results == hits_view(hits@),
{
    if state.search_results.len() == 0 {
        let query = trim_str(state.search_input.as_str());
        if query.unicode_len() == 0 {
            state.status = string_of("Query kosong");
            assert(state@ =~= with_status(old(state)@, empty_query_status()));
            fit_to_frame(state, w, h);
            return Ok(false);
        }
        let limit = match SearchLimit::new(8) {
            Ok(l) => l,
            Err(e) => return Err(UseCaseError::Domain(e)),
        };
        let hits = match read_repo.search(query, true, true, limit) {
            Ok(v) => v,
            Err(e) => return Err(UseCaseError::Infra(e)),
        };
        proof {
            assert(read_repo.search_answer(trim(old(state)@.search_input), true, true, 8, Ok(hits)));
        }
        let n = hits.len();
        state.search_results = hits;
        state.selected_search_idx = 0;
        let mut status = String::new();
        push_decimal(&mut status, n as u64);
        append_str(&mut status, " hasil ditemukan");
        state.status = status;
        assert(state@.search_results.len() == n);
        assert(state@ =~= (TuiView {
            search_results: state@.search_results,
            selected_search_idx: 0,
            status: hits_found_status(state@.search_results.len()),
            ..old(state)@
        }));
        fit_to_frame(state, w, h);
        return Ok(false);
    }
    let sel = state.selected_search_idx;
    if sel >= state.search_results.len() {
        fit_to_frame(state, w, h);
        return Ok(false);
    }
    assert(hits_view(state.search_results@)[sel as int] == state.search_results@[sel as int]@);
    let surah_no = state.search_results[sel].surah_no;
    let ayah_no = state.search_results[sel].ayah_no;
    state.jump_to(surah_no, ayah_no);
    match state.load_surah(read_repo, lang) {
        Ok(()) => {},
        Err(e) => return Err(e),
    }
    let mut status = string_of("Lompat ke ");
    push_decimal(&mut status, surah_no as u64);
    append_str(&mut status, ":");
    push_decimal(&mut status, ayah_no as u64);
    state.status = status;
    state.mode = UiMode::Reading;
    fit_to_frame(state, w, h);
    Ok(false)
}

/// Removes the selected bookmark and shows the store's new listing.
pub fn delete_selected_bookmark<S: BookmarkRepository>(state_repo: &S, state: &mut TuiState) -> (r:
    Result<(), UseCaseError>)
    requires
        old(state).wf(),
    ensures
        final(state).wf(),
        ({
            let p = old(state)@;
            let q = final(state)@;
            let b = p.bookmarks[p.selected_bookmark_idx as int];
            &&& p.selected_bookmark_idx >= p.bookmarks.len() ==> r is Ok && q == with_status(
                p,
                nothing_to_delete_status(),
            )
            &&& p.selected_bookmark_idx < p.bookmarks.len() && r is Ok ==> q == (TuiView {
                bookmarks: q.bookmarks,
                selected_bookmark_idx: min_int(
                    p.selected_bookmark_idx as int,
                    pred_or_zero(q.bookmarks.len() as int),
                ) as usize,
                status: bookmark_deleted_status(b.id, b.surah_no, b.ayah_no),
                ..p
            })
            &&& r is Err ==> q == p
            &&& p.selected_bookmark_idx < p.bookmarks.len() && b.id <= 0 ==> (r matches Err(
                UseCaseError::Domain(DomainError::InvalidBookmarkId(v)),
            ) && v == b.id)
            &&& r matches Err(e) ==> (e is Infra || (p.selected_bookmark_idx < p.bookmarks.len()
                && b.id <= 0))
            &&& p.selected_bookmark_idx < p.bookmarks.len() && r is Ok ==> exists|n: usize|
                #[trigger] state_repo.removal_answer(b.id, Ok(n))
            &&& p.selected_bookmark_idx < p.bookmarks.len() && r is Ok ==> exists|l: Vec<Bookmark>|
                #[trigger] state_repo.list_answer(Ok(l)) && q.bookmarks == bookmarks_view(l@)
        }),
{
    let sel = state.selected_bookmark_idx;
    if sel >= state.bookmarks.len() {
        state.status = string_of("Belum ada bookmark untuk dihapus.");
        assert(state@ =~= with_status(old(state)@, nothing_to_delete_status()));
        return Ok(());
    }
    assert(bookmarks_view(state.bookmarks@)[sel as int] == state.bookmarks@[sel as int]@);
    let id_raw = state.bookmarks[sel].id;
    let surah_no = state.bookmarks[sel].surah_no;
    let ayah_no = state.bookmarks[sel].ayah_no;
    let id = match BookmarkId::new(id_raw) {
        Ok(i) => i,
        Err(e) => return Err(UseCaseError::Domain(e)),
    };
    match state_repo.remove_bookmark(id) {
        Ok(n) => {
            proof {
                assert(state_repo.removal_answer(id_raw, Ok(n)));
            }
        },
        Err(e) => return Err(UseCaseError::Infra(e)),
    }
    let fresh = match state_repo.list_bookmarks() {
        Ok(l) => l,
        Err(e) => return Err(UseCaseError::Infra(e)),
    };
    proof {
        assert(state_repo.list_answer(Ok(fresh)));
    }
    state.bookmarks = fresh;
    let len = state.bookmarks.len();
    let last = if len > 0 {
        len - 1
    } else {
        0
    };
    if state.selected_bookmark_idx > last {
        state.selected_bookmark_idx = last;
    }
    let mut status = string_of("Bookmark #");
    push_signed_decimal(&mut status, id_raw);
    append_str(&mut status, " dihapus (");
    push_decimal(&mut status, surah_no as u64);
    append_str(&mut status, ":");
    push_decimal(&mut status, ayah_no as u64);
    append_str(&mut status, ").");
    state.status = status;
    assert(state@ =~= (TuiView {
        bookmarks: state@.bookmarks,
        selected_bookmark_idx: min_int(
            old(state)@.selected_bookmark_idx as int,
            pred_or_zero(state@.bookmarks.len() as int),
        ) as usize,
        status: bookmark_deleted_status(id_raw, surah_no, ayah_no),
        ..old(state)@
    }));
    Ok(())
}

fn jump_to_bookmark<R: QuranReadRepository>(
    read_repo: &R,
    lang: &LanguageTag,
    state: &mut TuiState,
    w: u16,
    h: u16,
) -> (r: Result<bool, UseCaseError>)
    requires
        old(state).wf(),
    ensures
        final(state).wf(),
        bookmark_jumped_post(old(state)@, final(state)@, w, h, r),
{
    let sel = state.selected_bookmark_idx;
    if sel >= state.bookmarks.len() {
        state.mode = UiMode::Reading;
        assert(state@ =~= (TuiView { mode: UiMode::Reading, ..old(state)@ }));
        fit_to_frame(state, w, h);
        return Ok(false);
    }
    assert(bookmarks_view(state.bookmarks@)[sel as int] == state.bookmarks@[sel as int]@);
    let id = state.bookmarks[sel].id;
    let surah_no = state.bookmarks[sel].surah_no;
    let ayah_no = state.bookmarks[sel].ayah_no;
    state.jump_to(surah_no, ayah_no);
    match state.load_surah(read_repo, lang) {
        Ok(()) => {},
        Err(e) => return Err(e),
    }
    let mut status = string_of("Lompat ke bookmark #");
    push_signed_decimal(&mut status, id);
    append_str(&mut status, " (");
    push_decimal(&mut status, surah_no as u64);
    append_str(&mut status, ":");
    push_decimal(&mut status, ayah_no as u64);
    append_str(&mut status, ")");
    state.status = status;
    state.mode = UiMode::Reading;
    fit_to_frame(state, w, h);
    Ok(false)
}

/// Carries out any intent but the palette's Enter.
pub fn apply_basic_intent<R: QuranReadRepository, S: ProgressRepository + BookmarkRepository>(
    read_repo: &R,
    state_repo: &S,
    lang: &LanguageTag,
    state: &mut TuiState,
    intent: Intent,
    terminal_width: u16,
    terminal_height: u16,
) -> (r: Result<bool, UseCaseError>)
    requires
        old(state).wf(),
        intent != Intent::PaletteSubmit,
    ensures
        final(state).wf(),
        basic_post(old(state)@, final(state)@, intent, terminal_width, terminal_height, r),
{
    let w = terminal_width;
    let h = terminal_height;
    if is_pure(intent) {
        apply_pure_intent(state, intent, w, h);
        fit_to_frame(state, w, h);
        return Ok(false);
    }
    match intent {
        Intent::Quit => Ok(true),
        Intent::NextAyah => navigate_ayah(state_repo, state, true, w, h),
        Intent::PrevAyah => navigate_ayah(state_repo, state, false, w, h),
        Intent::NextSurah | Intent::PrevSurah | Intent::SurahCursorSelect => navigate_surah(
            read_repo,
            lang,
            state,
            intent,
            w,
            h,
        ),
        Intent::OpenBookmarks => open_bookmarks(state_repo, state, w, h),
        Intent::AddBookmark => add_bookmark_here(state_repo, state, w, h),
        Intent::RemoveCurrentAyahBookmarks => {
            match remove_current_ayah_bookmarks(state_repo, state) {
                Ok(()) => {
                    fit_to_frame(state, w, h);
                    Ok(false)
                },
                Err(e) => Err(e),
            }
        },
        Intent::SearchSubmit => submit_search(read_repo, lang, state, w, h),
        Intent::BookmarkDelete => {
            match delete_selected_bookmark(state_repo, state) {
                Ok(()) => {
                    fit_to_frame(state, w, h);
                    Ok(false)
                },
                Err(e) => Err(e),
            }
        },
        Intent::BookmarkJump => jump_to_bookmark(read_repo, lang, state, w, h),
        _ => Ok(false),
    }
}

fn is_pure(intent: Intent) -> (r: bool)
    ensures
        r == is_pure_intent(intent),
{
    match intent {
        Intent::TogglePlayback | Intent::AudioStop | Intent::AudioNext | Intent::AudioPrev
        | Intent::AudioRepeat | Intent::AudioSpeedDown | Intent::AudioSpeedUp | Intent::CycleQari
        | Intent::FocusNextPane | Intent::SurahCursorUp | Intent::SurahCursorDown
        | Intent::SurahFilterType(_) | Intent::SurahFilterBackspace | Intent::SurahFilterClear
        | Intent::ToggleSidebar | Intent::ToggleHelp | Intent::OpenPalette | Intent::OpenSearch
        | Intent::CloseOverlay | Intent::PaletteMoveUp | Intent::PaletteMoveDown
        | Intent::PaletteBackspace | Intent::PaletteType(_) | Intent::SearchMoveUp
        | Intent::SearchMoveDown | Intent::SearchBackspace | Intent::SearchType(_)
        | Intent::BookmarkMoveUp | Intent::BookmarkMoveDown | Intent::CycleTheme => true,
        _ => false,
    }
}

/// The intent that a palette entry stands for; Quit has none.
pub open spec fn palette_intent(action: PaletteAction) -> Option<Intent> {
    match action {
        PaletteAction::ToggleSidebar => Some(Intent::ToggleSidebar),
        PaletteAction::OpenBookmarks => Some(Intent::OpenBookmarks),
        PaletteAction::OpenSearch => Some(Intent::OpenSearch),
        PaletteAction::ToggleHelp => Some(Intent::ToggleHelp),
        PaletteAction::TogglePlayback => Some(Intent::TogglePlayback),
        PaletteAction::StopPlayback => Some(Intent::AudioStop),
        PaletteAction::AddBookmark => Some(Intent::AddBookmark),
        PaletteAction::NextSurah => Some(Intent::NextSurah),
        PaletteAction::PrevSurah => Some(Intent::PrevSurah),
        PaletteAction::Quit => None,
        PaletteAction::CycleTheme => Some(Intent::CycleTheme),
    }
}

pub open spec fn quit_hint_status() -> Seq<char> {
    "Gunakan q untuk keluar"@
}

pub open spec fn as_step(r: Result<(), UseCaseError>) -> Result<bool, UseCaseError> {
    match r {
        Ok(()) => Ok(false),
        Err(e) => Err(e),
    }
}

/// A palette entry does what its intent does; Quit only says how to quit.
pub open spec fn palette_action_post(
    p: TuiView,
    q: TuiView,
    action: PaletteAction,
    w: u16,
    h: u16,
    r: Result<(), UseCaseError>,
) -> bool {
    match palette_intent(action) {
        Some(i) => basic_post(p, q, i, w, h, as_step(r)),
        None => r is Ok && q == with_status(p, quit_hint_status()),
    }
}

/// Enter in the palette: the selected entry runs and the palette closes.
pub open spec fn palette_submitted_post(
    p: TuiView,
    q: TuiView,
    w: u16,
    h: u16,
    r: Result<bool, UseCaseError>,
) -> bool {
    let items = filtered_palette_spec(p.palette_input);
    if p.palette_selected_idx < items.len() {
        let action = items[p.palette_selected_idx as int].2;
        &&& r matches Ok(b) ==> !b && exists|mid: TuiView|
            palette_action_post(p, mid, action, w, h, Ok(())) && q == fitted(
                TuiView { mode: UiMode::Reading, ..mid },
                w,
                h,
            )
        &&& r matches Err(e) ==> palette_action_post(p, q, action, w, h, Err(e))
    } else {
        r == Ok::<bool, UseCaseError>(false) && q == fitted(
            TuiView { mode: UiMode::Reading, ..p },
            w,
            h,
        )
    }
}

/// What any intent does to the reader; `Ok(true)` asks to quit.
pub open spec fn intent_post(
    p: TuiView,
    q: TuiView,
    intent: Intent,
    w: u16,
    h: u16,
    r: Result<bool, UseCaseError>,
) -> bool {
    if intent == Intent::PaletteSubmit {
        palette_submitted_post(p, q, w, h, r)
    } else {
        basic_post(p, q, intent, w, h, r)
    }
}

/// Runs a palette entry.
pub fn execute_palette_action<R: QuranReadRepository, S: ProgressRepository + BookmarkRepository>(
    read_repo: &R,
    state_repo: &S,
    lang: &LanguageTag,
    state: &mut TuiState,
    action: PaletteAction,
    terminal_width: u16,
    terminal_height: u16,
) -> (r: Result<(), UseCaseError>)
    requires
        old(state).wf(),
    ensures
        final(state).wf(),
        palette_action_post(old(state)@, final(state)@, action, terminal_width, terminal_height, r),
{
    let intent = match action {
        PaletteAction::ToggleSidebar => Intent::ToggleSidebar,
        PaletteAction::OpenBookmarks => Intent::OpenBookmarks,
        PaletteAction::OpenSearch => Intent::OpenSearch,
        PaletteAction::ToggleHelp => Intent::ToggleHelp,
        PaletteAction::TogglePlayback => Intent::TogglePlayback,
        PaletteAction::StopPlayback => Intent::AudioStop,
        PaletteAction::AddBookmark => Intent::AddBookmark,
        PaletteAction::NextSurah => Intent::NextSurah,
        PaletteAction::PrevSurah => Intent::PrevSurah,
        PaletteAction::Quit => {
            state.status = string_of("Gunakan q untuk keluar");
            assert(state@ =~= with_status(old(state)@, quit_hint_status()));
            return Ok(());
        },
        PaletteAction::CycleTheme => Intent::CycleTheme,
    };
    match apply_basic_intent(
        read_repo,
        state_repo,
        lang,
        state,
        intent,
        terminal_width,
        terminal_height,
    ) {
        Ok(_) => Ok(()),
        Err(e) => Err(e),
    }
}

/// Carries out an intent. `Ok(true)` asks the reader to close.
pub fn apply_intent<R: QuranReadRepository, S: ProgressRepository + BookmarkRepository>(
    read_repo: &R,
    state_repo: &S,
    lang: &LanguageTag,
    state: &mut TuiState,
    intent: Intent,
    terminal_width: u16,
    terminal_height: u16,
) -> (r: Result<bool, UseCaseError>)
    requires
        old(state).wf(),
    ensures
        final(state).wf(),
        intent_post(old(state)@, final(state)@, intent, terminal_width, terminal_height, r),
        r matches Ok(b) ==> (b <==> intent == Intent::Quit),
{
    if intent != Intent::PaletteSubmit {
        return apply_basic_intent(
            read_repo,
            state_repo,
            lang,
            state,
            intent,
            terminal_width,
            terminal_height,
        );
    }
    let items = state.filtered_palette();
    let sel = state.palette_selected_idx;
    if sel < items.len() {
        let action = items[sel].action;
        assert(palette_view(items@)[sel as int] == palette_entry(items@[sel as int]));
        let r = execute_palette_action(
            read_repo,
            state_repo,
            lang,
            state,
            action,
            terminal_width,
            terminal_height,
        );
        match r {
            Ok(()) => {},
            Err(e) => return Err(e),
        }
        let ghost mid = state@;
        assert(palette_action_post(old(state)@, mid, action, terminal_width, terminal_height, Ok(())));
        state.mode = UiMode::Reading;
        assert(state@ =~= (TuiView { mode: UiMode::Reading, ..mid }));
        fit_to_frame(state, terminal_width, terminal_height);
        return Ok(false);
    }
    state.mode = UiMode::Reading;
    assert(state@ =~= (TuiView { mode: UiMode::Reading, ..old(state)@ }));
    fit_to_frame(state, terminal_width, terminal_height);
    Ok(false)
}

pub open spec fn audio_done_status() -> Seq<char> {
    "Audio selesai"@
}

/// The periodic check of the player, before the position is stored: the
/// selection follows the ayah that plays.
pub open spec fn tick_followed(s: TuiView, sink_empty: bool) -> TuiView {
    match s.player {
        None => s,
        Some(p) => {
            let o = tick_outcome(p, sink_empty);
            let a = o.1.ayahs[o.1.index as int];
            TuiView {
                player: Some(o.1),
                audio: s.audio + o.2,
                selected_ayah_idx: pred_or_zero(a.ayah_no as int) as usize,
                status: play_status(a.surah_no, a.ayah_no, s.active_qari),
                ..s
            }
        },
    }
}

/// After the position is stored: a finished player is dropped.
pub open spec fn tick_finished(s: TuiView, sink_empty: bool) -> TuiView {
    let s1 = tick_followed(s, sink_empty);
    match s.player {
        Some(p) => {
            if tick_outcome(p, sink_empty).0 == PlayerTick::Finished {
                TuiView {
                    player: None,
                    audio: s1.audio.push(AudioCommand::Close),
                    status: audio_done_status(),
                    ..s1
                }
            } else {
                s1
            }
        },
        None => s1,
    }
}

/// The periodic check of the player: the selection and status follow the
/// ayah that plays, its position is stored, and a finished player is
/// dropped. A failure leaves the state before the position was stored.
pub fn sync_audio_tick<S: ProgressRepository>(
    state_repo: &S,
    state: &mut TuiState,
    sink_empty: bool,
) -> (r: Result<(), UseCaseError>)
    requires
        old(state).wf(),
    ensures
        final(state).wf(),
        r is Ok ==> final(state)@ == tick_finished(old(state)@, sink_empty),
        r is Err ==> final(state)@ == tick_followed(old(state)@, sink_empty),
        old(state)@.player is None ==> r is Ok,
        r matches Err(e) ==> (e is Infra || ({
            let s1 = tick_followed(old(state)@, sink_empty);
            s1.player matches Some(q) && !(valid_surah_no(q.ayahs[q.index as int].surah_no)
                && valid_ayah_no(q.ayahs[q.index as int].ayah_no))
        })),
{
    let mut player = match state.player.take() {
        None => {
            return Ok(());
        },
        Some(p) => p,
    };
    let t = player.tick(sink_empty, &mut state.audio);
    let finished = t == PlayerTick::Finished;
    let i = player.index;
    let surah_no = player.ayahs[i].surah_no;
    let ayah_no = player.ayahs[i].ayah_no;
    state.player = Some(player);
    state.selected_ayah_idx = if ayah_no > 0 {
        (ayah_no - 1) as usize
    } else {
        0
    };
    state.status = play_status_string(surah_no, ayah_no, state.active_qari.as_str());
    assert(state@ =~= tick_followed(old(state)@, sink_empty));
    let target = match ayah_ref_from_raw(surah_no, ayah_no) {
        Ok(t) => t,
        Err(e) => return Err(e),
    };
    match state_repo.set_progress(target) {
        Ok(()) => {},
        Err(e) => return Err(UseCaseError::Infra(e)),
    }
    if finished {
        state.player = None;
        state.audio.push(AudioCommand::Close);
        state.status = string_of("Audio selesai");
    }
    assert(state@ =~= tick_finished(old(state)@, sink_empty));
    Ok(())
}

/// After every intent that keeps the reader open, the surah panel is closed
/// and the reader has the focus wherever the terminal is too small for the
/// panel.
pub proof fn lemma_panel_fits_after_intent(
    p: TuiView,
    q: TuiView,
    intent: Intent,
    w: u16,
    h: u16,
    r: Result<bool, UseCaseError>,
)
    requires
        intent_post(p, q, intent, w, h, r),
        r == Ok::<bool, UseCaseError>(false),
        !frame_fits(w, h),
    ensures
        q.sidebar_collapsed,
        q.focus == PaneFocus::AyahReader,
{
}

} // verus!
