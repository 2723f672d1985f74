//! The key bindings of the reader: which intent a key press asks for in each
//! mode.
use vstd::prelude::*;
use vstd::string::*;

use crate::text::{char_is_control, is_control_char};
use crate::tui::{Intent, PaneFocus, TuiState, UiMode};

verus! {

/// A key, as the terminal reports it.
#[derive(Debug, Clone, Copy, PartialEq, Eq, Structural)]
pub enum KeyCode {
    Char(char),
    Up,
    Down,
    Left,
    Right,
    Enter,
    Backspace,
    Delete,
    Esc,
    Tab,
    F(u8),
    Other,
}

/// A key press with the modifiers that the bindings look at.
#[derive(Debug, Clone, Copy, PartialEq, Eq, Structural)]
pub struct Key {
    pub code: KeyCode,
    pub ctrl: bool,
    pub alt: bool,
}

/// The surah panel is open and has the focus: typed characters filter it.
pub open spec fn sidebar_filter_mode(focus: PaneFocus, collapsed: bool) -> bool {
    focus == PaneFocus::SurahCards && !collapsed
}

/// The bindings while reading. Besides the keys the reader's code handles,
/// `b` opens the bookmark list and `u` removes the current ayah's bookmarks,
/// as the help screen and the footer promise, unless the keys are typed into
/// the surah filter.
pub open spec fn reading_key_intent(
    focus: PaneFocus,
    collapsed: bool,
    filter_empty: bool,
    key: Key,
) -> Option<Intent> {
    let cards = sidebar_filter_mode(focus, collapsed);
    if key.ctrl && key.code == KeyCode::Char('k') {
        Some(Intent::OpenPalette)
    } else if key.ctrl && key.code == KeyCode::Char('b') {
        Some(Intent::ToggleSidebar)
    } else {
        match key.code {
            KeyCode::Char('q') => Some(Intent::Quit),
            KeyCode::Char('j') | KeyCode::Down => if cards {
                Some(Intent::SurahCursorDown)
            } else {
                Some(Intent::NextAyah)
            },
            KeyCode::Char('k') | KeyCode::Up => if cards {
                Some(Intent::SurahCursorUp)
            } else {
                Some(Intent::PrevAyah)
            },
            KeyCode::Enter => if cards {
                Some(Intent::SurahCursorSelect)
            } else {
                None
            },
            KeyCode::Backspace => if cards {
                Some(Intent::SurahFilterBackspace)
            } else {
                None
            },
            KeyCode::Esc => if cards && !filter_empty {
                Some(Intent::SurahFilterClear)
            } else {
                None
            },
            KeyCode::Char('n') => Some(Intent::NextSurah),
            KeyCode::Char('p') => Some(Intent::PrevSurah),
            KeyCode::Char('f') => Some(Intent::AddBookmark),
            KeyCode::Char('/') => Some(Intent::OpenSearch),
            KeyCode::Char(' ') => Some(Intent::TogglePlayback),
            KeyCode::Char(']') => Some(Intent::AudioNext),
            KeyCode::Char('[') => Some(Intent::AudioPrev),
            KeyCode::Char('s') => Some(Intent::AudioStop),
            KeyCode::Char('r') => Some(Intent::AudioRepeat),
            KeyCode::Char(',') => Some(Intent::AudioSpeedDown),
            KeyCode::Char('.') => Some(Intent::AudioSpeedUp),
            KeyCode::Char('Q') => Some(Intent::CycleQari),
            KeyCode::Tab => Some(Intent::FocusNextPane),
            KeyCode::F(1) => Some(Intent::ToggleHelp),
            KeyCode::Char(c) => if cards && !key.ctrl && !key.alt && !is_control_char(c) {
                Some(Intent::SurahFilterType(c))
            } else if !cards && c == 'b' {
                Some(Intent::OpenBookmarks)
            } else if !cards && c == 'u' {
                Some(Intent::RemoveCurrentAyahBookmarks)
            } else {
                None
            },
            _ => None,
        }
    }
}

/// The bindings of the command palette.
pub open spec fn palette_key_intent(key: Key) -> Option<Intent> {
    if key.ctrl && key.code == KeyCode::Char('k') {
        Some(Intent::CloseOverlay)
    } else {
        match key.code {
            KeyCode::Esc => Some(Intent::CloseOverlay),
            KeyCode::Up => Some(Intent::PaletteMoveUp),
            KeyCode::Down => Some(Intent::PaletteMoveDown),
            KeyCode::Backspace => Some(Intent::PaletteBackspace),
            KeyCode::Enter => Some(Intent::PaletteSubmit),
            KeyCode::Char(c) => Some(Intent::PaletteType(c)),
            _ => None,
        }
    }
}

/// The bindings of the search box.
pub open spec fn search_key_intent(key: Key) -> Option<Intent> {
    match key.code {
        KeyCode::Esc => Some(Intent::CloseOverlay),
        KeyCode::Up => Some(Intent::SearchMoveUp),
        KeyCode::Down => Some(Intent::SearchMoveDown),
        KeyCode::Backspace => Some(Intent::SearchBackspace),
        KeyCode::Enter => Some(Intent::SearchSubmit),
        KeyCode::Char(c) => Some(Intent::SearchType(c)),
        _ => None,
    }
}

/// The bindings of the bookmark list; `d` and Delete delete the selected
/// bookmark, as the help screen and the list's footer promise.
pub open spec fn bookmark_key_intent(key: Key) -> Option<Intent> {
    match key.code {
        KeyCode::Esc => Some(Intent::CloseOverlay),
        KeyCode::Up => Some(Intent::BookmarkMoveUp),
        KeyCode::Down => Some(Intent::BookmarkMoveDown),
        KeyCode::Enter => Some(Intent::BookmarkJump),
        KeyCode::Char('d') | KeyCode::Delete => Some(Intent::BookmarkDelete),
        _ => None,
    }
}

/// The bindings of the help screen.
pub open spec fn help_key_intent(key: Key) -> Option<Intent> {
    match key.code {
        KeyCode::Esc | KeyCode::F(1) => Some(Intent::CloseOverlay),
        _ => None,
    }
}

/// The bindings in each mode.
pub open spec fn key_intent(
    mode: UiMode,
    focus: PaneFocus,
    collapsed: bool,
    filter_empty: bool,
    key: Key,
) -> Option<Intent> {
    match mode {
        UiMode::Reading => reading_key_intent(focus, collapsed, filter_empty, key),
        UiMode::CommandPalette => palette_key_intent(key),
        UiMode::SearchInline => search_key_intent(key),
        UiMode::BookmarkOverlay => bookmark_key_intent(key),
        UiMode::HelpOverlay => help_key_intent(key),
    }
}

fn map_reading_key(state: &TuiState, key: Key) -> (r: Option<Intent>)
    ensures
        r == reading_key_intent(
            state.focus,
            state.sidebar_collapsed,
            state.surah_filter@.len() == 0,
            key,
        ),
{
    let cards = state.focus == PaneFocus::SurahCards && !state.sidebar_collapsed;
    if key.ctrl && key.code == KeyCode::Char('k') {
        return Some(Intent::OpenPalette);
    }
    if key.ctrl && key.code == KeyCode::Char('b') {
        return Some(Intent::ToggleSidebar);
    }
    match key.code {
        KeyCode::Char('q') => Some(Intent::Quit),
        KeyCode::Char('j') | KeyCode::Down => {
            if cards {
                Some(Intent::SurahCursorDown)
            } else {
                Some(Intent::NextAyah)
            }
        },
        KeyCode::Char('k') | KeyCode::Up => {
            if cards {
                Some(Intent::SurahCursorUp)
            } else {
                Some(Intent::PrevAyah)
            }
        },
        KeyCode::Enter => {
            if cards {
                Some(Intent::SurahCursorSelect)
            } else {
                None
            }
        },
        KeyCode::Backspace => {
            if cards {
                Some(Intent::SurahFilterBackspace)
            } else {
                None
            }
        },
        KeyCode::Esc => {
            if cards && state.surah_filter.as_str().unicode_len() != 0 {
                Some(Intent::SurahFilterClear)
            } else {
                None
            }
        },
        KeyCode::Char('n') => Some(Intent::NextSurah),
        KeyCode::Char('p') => Some(Intent::PrevSurah),
        KeyCode::Char('f') => Some(Intent::AddBookmark),
        KeyCode::Char('/') => Some(Intent::OpenSearch),
        KeyCode::Char(' ') => Some(Intent::TogglePlayback),
        KeyCode::Char(']') => Some(Intent::AudioNext),
        KeyCode::Char('[') => Some(Intent::AudioPrev),
        KeyCode::Char('s') => Some(Intent::AudioStop),
        KeyCode::Char('r') => Some(Intent::AudioRepeat),
        KeyCode::Char(',') => Some(Intent::AudioSpeedDown),
        KeyCode::Char('.') => Some(Intent::AudioSpeedUp),
        KeyCode::Char('Q') => Some(Intent::CycleQari),
        KeyCode::Tab => Some(Intent::FocusNextPane),
        KeyCode::F(1) => Some(Intent::ToggleHelp),
        KeyCode::Char(c) => {
            if cards && !key.ctrl && !key.alt && !char_is_control(c) {
                Some(Intent::SurahFilterType(c))
            } else if !cards && c == 'b' {
                Some(Intent::OpenBookmarks)
            } else if !cards && c == 'u' {
                Some(Intent::RemoveCurrentAyahBookmarks)
            } else {
                None
            }
        },
        _ => None,
    }
}

fn map_palette_key(key: Key) -> (r: Option<Intent>)
    ensures
        r == palette_key_intent(key),
{
    if key.ctrl && key.code == KeyCode::Char('k') {
        return Some(Intent::CloseOverlay);
    }
    match key.code {
        KeyCode::Esc => Some(Intent::CloseOverlay),
        KeyCode::Up => Some(Intent::PaletteMoveUp),
        KeyCode::Down => Some(Intent::PaletteMoveDown),
        KeyCode::Backspace => Some(Intent::PaletteBackspace),
        KeyCode::Enter => Some(Intent::PaletteSubmit),
        KeyCode::Char(c) => Some(Intent::PaletteType(c)),
        _ => None,
    }
}

fn map_search_key(key: Key) -> (r: Option<Intent>)
    ensures
        r == search_key_intent(key),
{
    match key.code {
        KeyCode::Esc => Some(Intent::CloseOverlay),
        KeyCode::Up => Some(Intent::SearchMoveUp),
        KeyCode::Down => Some(Intent::SearchMoveDown),
        KeyCode::Backspace => Some(Intent::SearchBackspace),
        KeyCode::Enter => Some(Intent::SearchSubmit),
        KeyCode::Char(c) => Some(Intent::SearchType(c)),
        _ => None,
    }
}

fn map_bookmark_key(key: Key) -> (r: Option<Intent>)
    ensures
        r == bookmark_key_intent(key),
{
    match key.code {
        KeyCode::Esc => Some(Intent::CloseOverlay),
        KeyCode::Up => Some(Intent::BookmarkMoveUp),
        KeyCode::Down => Some(Intent::BookmarkMoveDown),
        KeyCode::Enter => Some(Intent::BookmarkJump),
        KeyCode::Char('d') | KeyCode::Delete => Some(Intent::BookmarkDelete),
        _ => None,
    }
}

fn map_help_key(key: Key) -> (r: Option<Intent>)
    ensures
        r == help_key_intent(key),
{
    match key.code {
        KeyCode::Esc | KeyCode::F(1) => Some(Intent::CloseOverlay),
        _ => None,
    }
}

/// The intent that a key press asks for in the reader's current mode.
pub fn map_key_to_intent(state: &TuiState, key: Key) -> (r: Option<Intent>)
    ensures
        r == key_intent(
            state.mode,
            state.focus,
            state.sidebar_collapsed,
            state.surah_filter@.len() == 0,
            key,
        ),
{
    match state.mode {
        UiMode::Reading => map_reading_key(state, key),
        UiMode::CommandPalette => map_palette_key(key),
        UiMode::SearchInline => map_search_key(key),
        UiMode::BookmarkOverlay => map_bookmark_key(key),
        UiMode::HelpOverlay => map_help_key(key),
    }
}

} // verus!
