//! Layout decisions of the reader screen: sizes, densities, the visible
//! window of a list, and the surah filter.
use vstd::prelude::*;
use vstd::string::*;

use crate::domain::{SurahMeta, SurahMetaView};
use crate::audio::{speed_label, speed_text, PlayerView};
use crate::tui::{surahs_view, PaneFocus, TuiState, TuiView};
use crate::text::{
    append_str, ascii_upper, ascii_uppercase, push_decimal, push_zero_padded, zero_padded, contains_str, decimal, decimal_string, has_sub, push_char, string_of, to_lowercase, trim,
    trim_str, unicode_lowercase,
};

verus! {

/// A rectangle of terminal cells. As with the terminal library's own
/// rectangle, the size is cut down so that the far edges stay on the
/// 16-bit grid.
#[derive(Debug, Clone, Copy, PartialEq, Eq, Structural)]
pub struct Rect {
    pub x: u16,
    pub y: u16,
    pub width: u16,
    pub height: u16,
}

impl Rect {
    pub fn new(x: u16, y: u16, width: u16, height: u16) -> (r: Self)
        ensures
            r.x == x,
            r.y == y,
            r.width == if width > u16::MAX - x {
                (u16::MAX - x) as u16
            } else {
                width
            },
            r.height == if height > u16::MAX - y {
                (u16::MAX - y) as u16
            } else {
                height
            },
    {
        let max_width = u16::MAX - x;
        let max_height = u16::MAX - y;
        let width = if width > max_width {
            max_width
        } else {
            width
        };
        let height = if height > max_height {
            max_height
        } else {
            height
        };
        Rect { x, y, width, height }
    }
}

/// How much room the reader has: one roomy column or a compact one.
#[derive(Debug, Clone, Copy, PartialEq, Eq, Structural)]
pub enum ReaderDensity {
    Wide,
    Compact,
}

#[derive(Debug, Clone, Copy, PartialEq, Eq, Structural)]
pub struct ViewportMode {
    pub density: ReaderDensity,
    pub show_sidebar: bool,
    pub sidebar_width: u16,
}

#[derive(Debug, Clone, Copy, PartialEq, Eq, Structural)]
pub struct UiScale {
    pub header_height: u16,
    pub footer_height: u16,
}

pub open spec fn footer_height_for(height: u16) -> u16 {
    if height >= 28 {
        4
    } else {
        3
    }
}

impl UiScale {
    pub fn from_area(area: Rect) -> (r: Self)
        ensures
            r.header_height == 2,
            r.footer_height == footer_height_for(area.height),
    {
        UiScale {
            header_height: 2,
            footer_height: if area.height >= 28 {
                4
            } else {
                3
            },
        }
    }
}

pub open spec fn density_for(area: Rect) -> ReaderDensity {
    if area.width >= 104 && area.height >= 26 {
        ReaderDensity::Wide
    } else {
        ReaderDensity::Compact
    }
}

pub fn reader_density(area: Rect) -> (r: ReaderDensity)
    ensures
        r == density_for(area),
{
    if area.width >= 104 && area.height >= 26 {
        ReaderDensity::Wide
    } else {
        ReaderDensity::Compact
    }
}

pub open spec fn row_height_for(density: ReaderDensity, show_translation: bool) -> u16 {
    match (density, show_translation) {
        (ReaderDensity::Wide, true) => 8,
        (ReaderDensity::Wide, false) => 6,
        (ReaderDensity::Compact, true) => 9,
        (ReaderDensity::Compact, false) => 7,
    }
}

/// The height of one ayah row.
pub fn ayah_row_height(density: ReaderDensity, show_translation: bool) -> (r: u16)
    ensures
        r == row_height_for(density, show_translation),
{
    match (density, show_translation) {
        (ReaderDensity::Wide, true) => 8,
        (ReaderDensity::Wide, false) => 6,
        (ReaderDensity::Compact, true) => 9,
        (ReaderDensity::Compact, false) => 7,
    }
}

/// A row grows by one line for the translation, and a compact row is taller
/// than a wide one.
pub proof fn lemma_row_height_order(density: ReaderDensity)
    ensures
        row_height_for(density, true) == row_height_for(density, false) + 2,
        row_height_for(ReaderDensity::Compact, true) > row_height_for(ReaderDensity::Wide, true),
        row_height_for(ReaderDensity::Compact, false) > row_height_for(ReaderDensity::Wide, false),
{
}

pub open spec fn newline_count(s: Seq<char>) -> nat
    decreases s.len(),
{
    if s.len() == 0 {
        0
    } else {
        newline_count(s.drop_last()) + if s.last() == '\n' {
            1nat
        } else {
            0nat
        }
    }
}

proof fn lemma_newline_count_bound(s: Seq<char>)
    ensures
        newline_count(s) <= s.len(),
    decreases s.len(),
{
    if s.len() > 0 {
        lemma_newline_count_bound(s.drop_last());
    }
}

/// The number of lines that `str::lines` yields: a final line break does not
/// open another line.
pub open spec fn line_count(s: Seq<char>) -> nat {
    if s.len() == 0 {
        0
    } else if s.last() == '\n' {
        newline_count(s)
    } else {
        newline_count(s) + 1
    }
}

/// The Arabic text with one blank line above it when the row has at least
/// two spare lines.
pub open spec fn padded_text(text: Seq<char>, height: u16) -> Seq<char> {
    let count = if line_count(text) < 1 {
        1
    } else {
        line_count(text)
    };
    let lines = (count % 65536) as u16;
    if height == 0 || text.len() == 0 || lines >= height {
        text
    } else if height - lines > 1 {
        seq!['\n'] + text
    } else {
        text
    }
}

pub fn padded_arabic_text(text: &str, height: u16) -> (r: String)
    ensures
        r@ == padded_text(text@, height),
{
    let n = text.unicode_len();
    if height == 0 || n == 0 {
        return string_of(text);
    }
    let mut newlines: usize = 0;
    let mut i: usize = 0;
    while i < n
        invariant
            n == text@.len(),
            i <= n,
            newlines as nat == newline_count(text@.subrange(0, i as int)),
            newlines <= i,
        decreases n - i,
    {
        assert(text@.subrange(0, i + 1).drop_last() =~= text@.subrange(0, i as int));
        if text.get_char(i) == '\n' {
            newlines = newlines + 1;
        }
        i = i + 1;
    }
    assert(text@.subrange(0, n as int) =~= text@);
    proof {
        lemma_newline_count_bound(text@.drop_last());
    }
    let count: usize = if text.get_char(n - 1) == '\n' {
        newlines
    } else {
        newlines + 1
    };
    let count = if count < 1 {
        1
    } else {
        count
    };
    let lines = (count % 65536) as u16;
    if lines >= height {
        return string_of(text);
    }
    let spare = height - lines;
    let mut result = String::new();
    if spare > 1 {
        push_char(&mut result, '\n');
    }
    result.append(text);
    assert(result@ =~= padded_text(text@, height));
    result
}

pub open spec fn sidebar_width_for(w: u16) -> u16 {
    let scaled = if w * 24 > u16::MAX {
        u16::MAX as int
    } else {
        w * 24
    };
    let preferred = scaled / 100;
    let max_sidebar = if w >= 72 + 28 {
        w - 72
    } else {
        28
    };
    let at_least = if preferred < 28 {
        28
    } else {
        preferred
    };
    (if at_least > max_sidebar {
        max_sidebar
    } else {
        at_least
    }) as u16
}

/// The width of the surah panel: a quarter of the screen, at least 28 cells,
/// and leaving 72 cells to the reader where the screen allows.
pub fn sidebar_width(area_width: u16) -> (r: u16)
    ensures
        r == sidebar_width_for(area_width),
{
    let scaled: u16 = if area_width > 2730 {
        u16::MAX
    } else {
        area_width * 24
    };
    let preferred = scaled / 100;
    let min_sidebar: u16 = 28;
    let rest = area_width.saturating_sub(72);
    let max_sidebar = if rest > min_sidebar {
        rest
    } else {
        min_sidebar
    };
    let at_least = if preferred > min_sidebar {
        preferred
    } else {
        min_sidebar
    };
    if at_least < max_sidebar {
        at_least
    } else {
        max_sidebar
    }
}

/// The surah panel fits when the screen is at least 132 cells wide and the
/// body between header and footer is at least 28 lines high.
pub open spec fn sidebar_fits(area: Rect) -> bool {
    let chrome = 2 + footer_height_for(area.height);
    let body = if area.height >= chrome {
        area.height - chrome
    } else {
        0
    };
    area.width >= 132 && body >= 28
}

pub fn can_show_sidebar_in_frame(area: Rect) -> (r: bool)
    ensures
        r == sidebar_fits(area),
{
    let scale = UiScale::from_area(area);
    let body_height = area.height.saturating_sub(scale.header_height + scale.footer_height);
    area.width >= 132 && body_height >= 28
}

/// The part of a list that is drawn: `start..end`.
#[derive(Debug, Clone, Copy, PartialEq, Eq, Structural)]
pub struct VisibleWindow {
    pub start: usize,
    pub end: usize,
}

pub open spec fn visible_window_spec(selected: usize, total: usize, visible: usize) -> (usize, usize) {
    if total <= visible {
        (0, total)
    } else {
        let half = visible / 2;
        let start = if selected >= half {
            selected - half
        } else {
            0
        };
        let end = if start + visible < total {
            start + visible
        } else {
            total as int
        };
        if end - start < visible {
            ((if end >= visible {
                end - visible
            } else {
                0
            }) as usize, end as usize)
        } else {
            (start as usize, end as usize)
        }
    }
}

/// Where a longer list than fits is drawn, the first row centred on the
/// selection lies within the list (past it, the window would end before it
/// starts).
pub open spec fn window_start_fits(selected: usize, total: usize, visible: usize) -> bool {
    total <= visible || selected - visible / 2 <= total
}

/// The window of a list of `total` rows, `visible` at a time, centred on the
/// selected row where the ends of the list allow.
pub fn compute_visible_window(selected: usize, total: usize, visible: usize) -> (r: VisibleWindow)
    requires
        window_start_fits(selected, total, visible),
    ensures
        (r.start, r.end) == visible_window_spec(selected, total, visible),
{
    if total <= visible {
        return VisibleWindow { start: 0, end: total };
    }
    let half = visible / 2;
    let mut start = selected.saturating_sub(half);
    let end = if visible < total - start {
        start + visible
    } else {
        total
    };
    if end - start < visible {
        start = end.saturating_sub(visible);
    }
    VisibleWindow { start, end }
}

/// The window stays within the list, holds at most `visible` rows (exactly
/// that many when the list is longer), and shows the selected row whenever
/// it exists and at least one row is visible.
pub proof fn lemma_visible_window(selected: usize, total: usize, visible: usize)
    requires
        window_start_fits(selected, total, visible),
    ensures
        ({
            let (start, end) = visible_window_spec(selected, total, visible);
            &&& start <= end <= total
            &&& end - start <= visible
            &&& total > visible ==> end - start == visible
            &&& (selected < total && visible > 0) ==> start <= selected < end
        }),
{
}

/// The surah matches a lower-cased needle by number, Latin name or Arabic
/// name.
pub open spec fn surah_matches(m: SurahMetaView, needle: Seq<char>) -> bool {
    has_sub(decimal(m.surah_no as nat), needle) || has_sub(unicode_lowercase(m.name_id), needle)
        || has_sub(unicode_lowercase(m.name_ar), needle)
}

/// The indices among the first `k` surahs that match the needle, ascending.
pub open spec fn matching_indices(s: Seq<SurahMetaView>, needle: Seq<char>, k: nat) -> Seq<usize>
    decreases k,
{
    if k == 0 {
        seq![]
    } else {
        let prev = matching_indices(s, needle, (k - 1) as nat);
        if surah_matches(s[k - 1], needle) {
            prev.push((k - 1) as usize)
        } else {
            prev
        }
    }
}

/// The indices of the surahs that a filter query selects: all of them for a
/// blank query, else those matching the trimmed, lower-cased query.
pub open spec fn filtered_surahs(s: Seq<SurahMetaView>, query: Seq<char>) -> Seq<usize> {
    if trim(query).len() == 0 {
        Seq::new(s.len(), |i: int| i as usize)
    } else {
        matching_indices(s, unicode_lowercase(trim(query)), s.len())
    }
}

pub proof fn lemma_matching_indices_bounds(s: Seq<SurahMetaView>, needle: Seq<char>, k: nat)
    requires
        k <= s.len(),
        s.len() <= usize::MAX,
    ensures
        matching_indices(s, needle, k).len() <= k,
        forall|i: int|
            0 <= i < matching_indices(s, needle, k).len() ==> #[trigger] matching_indices(
                s,
                needle,
                k,
            )[i] < k,
        forall|i: int, j: int|
            0 <= i < j < matching_indices(s, needle, k).len() ==> #[trigger] matching_indices(
                s,
                needle,
                k,
            )[i] < #[trigger] matching_indices(s, needle, k)[j],
    decreases k,
{
    if k > 0 {
        let prev = matching_indices(s, needle, (k - 1) as nat);
        lemma_matching_indices_bounds(s, needle, (k - 1) as nat);
        if surah_matches(s[k - 1], needle) {
            let cur = prev.push((k - 1) as usize);
            assert(cur[cur.len() - 1] == k - 1);
            assert forall|i: int, j: int| 0 <= i < j < cur.len() implies cur[i] < cur[j] by {
                if j < prev.len() {
                    assert(cur[i] == prev[i] && cur[j] == prev[j]);
                } else {
                    assert(cur[i] == prev[i]);
                }
            }
        }
    }
}

/// Every index that the filter yields names a surah, and the indices ascend.
pub proof fn lemma_filtered_surahs_ascending(s: Seq<SurahMetaView>, query: Seq<char>)
    requires
        s.len() <= usize::MAX,
    ensures
        forall|i: int|
            0 <= i < filtered_surahs(s, query).len() ==> #[trigger] filtered_surahs(s, query)[i]
                < s.len(),
        forall|i: int, j: int|
            0 <= i < j < filtered_surahs(s, query).len() ==> #[trigger] filtered_surahs(s, query)[i]
                < #[trigger] filtered_surahs(s, query)[j],
        filtered_surahs(s, query).len() <= s.len(),
{
    if trim(query).len() != 0 {
        lemma_matching_indices_bounds(s, unicode_lowercase(trim(query)), s.len());
    }
}

/// A blank filter (empty or whitespace) selects every surah, in catalogue
/// order.
pub proof fn lemma_blank_filter_selects_all(s: Seq<SurahMetaView>, query: Seq<char>)
    requires
        trim(query).len() == 0,
        s.len() <= usize::MAX,
    ensures
        filtered_surahs(s, query).len() == s.len(),
        forall|i: int| 0 <= i < s.len() ==> filtered_surahs(s, query)[i] == i,
{
}

fn surah_matches_exec(m: &SurahMeta, needle: &str) -> (r: bool)
    ensures
        r == surah_matches(m@, needle@),
{
    let number = decimal_string(m.surah_no as u64);
    if contains_str(number.as_str(), needle) {
        return true;
    }
    let latin = to_lowercase(m.name_id.as_str());
    if contains_str(latin.as_str(), needle) {
        return true;
    }
    let arabic = to_lowercase(m.name_ar.as_str());
    contains_str(arabic.as_str(), needle)
}

/// The surahs that a filter query selects, by index.
pub fn filter_surah_indices(surahs: &Vec<SurahMeta>, query: &str) -> (r: Vec<usize>)
    ensures
        r@ == filtered_surahs(surahs_view(surahs@), query@),
{
    let needle = to_lowercase(trim_str(query));
    let n = surahs.len();
    let mut out: Vec<usize> = Vec::new();
    let mut i: usize = 0;
    if needle.as_str().unicode_len() == 0 {
        while i < n
            invariant
                n == surahs@.len(),
                i <= n,
                out@ =~= Seq::new(i as nat, |k: int| k as usize),
            decreases n - i,
        {
            out.push(i);
            i = i + 1;
        }
        return out;
    }
    while i < n
        invariant
            n == surahs@.len(),
            i <= n,
            needle@ == unicode_lowercase(trim(query@)),
            out@ == matching_indices(surahs_view(surahs@), needle@, i as nat),
        decreases n - i,
    {
        assert(surahs_view(surahs@)[i as int] == surahs@[i as int]@);
        if surah_matches_exec(&surahs[i], needle.as_str()) {
            out.push(i);
        }
        i = i + 1;
    }
    out
}

/// The reader's layout for a screen: its density, whether the surah panel
/// shows (open and with room), and the panel's width.
pub fn viewport_mode(area: Rect, sidebar_collapsed: bool) -> (r: ViewportMode)
    ensures
        r.density == density_for(area),
        r.show_sidebar == (!sidebar_collapsed && sidebar_fits(area)),
        r.sidebar_width == sidebar_width_for(area.width),
{
    let density = reader_density(area);
    let fits = can_show_sidebar_in_frame(area);
    let width = sidebar_width(area.width);
    ViewportMode { density, show_sidebar: !sidebar_collapsed && fits, sidebar_width: width }
}

/// The lines under an ayah's Arabic text: the transliteration, when there
/// is one, and the translation, when shown.
pub fn secondary_panel_height(has_transliteration: bool, show_translation: bool) -> (r: u16)
    ensures
        r == (if has_transliteration {
            1int
        } else {
            0int
        }) + (if show_translation {
            1int
        } else {
            0int
        }),
{
    let mut lines: u16 = 0;
    if has_transliteration {
        lines = lines + 1;
    }
    if show_translation {
        lines = lines + 1;
    }
    lines
}

/// The badge of an ayah row: whether its recitation can be played.
pub fn audio_badge(has_audio: bool) -> (r: &'static str)
    ensures
        r@ == (if has_audio {
            "audio siap"@
        } else {
            "tanpa audio"@
        }),
{
    if has_audio {
        "audio siap"
    } else {
        "tanpa audio"
    }
}

/// The label of an ayah row, ` surah:ayah `.
pub fn ayah_label(surah_no: u16, ayah_no: u16) -> (r: String)
    ensures
        r@ == " "@ + decimal(surah_no as nat) + ":"@ + decimal(ayah_no as nat) + " "@,
{
    let mut s = string_of(" ");
    crate::text::push_decimal(&mut s, surah_no as u64);
    crate::text::append_str(&mut s, ":");
    crate::text::push_decimal(&mut s, ayah_no as u64);
    crate::text::append_str(&mut s, " ");
    s
}

/// Which tab of the header is lit: reader, surah panel, search, bookmarks,
/// help.
pub open spec fn nav_tabs_spec(mode: crate::tui::UiMode, collapsed: bool, focus: crate::tui::PaneFocus) -> (
    bool,
    bool,
    bool,
    bool,
    bool,
) {
    let reading = mode == crate::tui::UiMode::Reading;
    (
        reading && (collapsed || focus == crate::tui::PaneFocus::AyahReader),
        reading && !collapsed && focus == crate::tui::PaneFocus::SurahCards,
        mode == crate::tui::UiMode::SearchInline,
        mode == crate::tui::UiMode::BookmarkOverlay,
        mode == crate::tui::UiMode::HelpOverlay,
    )
}

pub fn nav_tabs(mode: crate::tui::UiMode, collapsed: bool, focus: crate::tui::PaneFocus) -> (r: (
    bool,
    bool,
    bool,
    bool,
    bool,
))
    ensures
        r == nav_tabs_spec(mode, collapsed, focus),
{
    let reading = mode == crate::tui::UiMode::Reading;
    (
        reading && (collapsed || focus == crate::tui::PaneFocus::AyahReader),
        reading && !collapsed && focus == crate::tui::PaneFocus::SurahCards,
        mode == crate::tui::UiMode::SearchInline,
        mode == crate::tui::UiMode::BookmarkOverlay,
        mode == crate::tui::UiMode::HelpOverlay,
    )
}

/// The progress label of the footer: `Ayat  n /  m` with both numbers
/// right-aligned in three columns, `n` being the selection counted from one.
pub open spec fn right_aligned3(n: nat) -> Seq<char> {
    let d = decimal(n);
    if d.len() >= 3 {
        d
    } else {
        Seq::new((3 - d.len()) as nat, |i: int| ' ') + d
    }
}

pub fn progress_label(selected: usize, total: usize) -> (r: String)
    requires
        selected < usize::MAX,
    ensures
        r@ == "Ayat "@ + right_aligned3((selected + 1) as nat) + " / "@ + right_aligned3(total as nat),
{
    let mut s = string_of("Ayat ");
    push_right_aligned3(&mut s, (selected + 1) as u64);
    crate::text::append_str(&mut s, " / ");
    push_right_aligned3(&mut s, total as u64);
    s
}

fn push_right_aligned3(s: &mut String, n: u64)
    ensures
        final(s)@ == old(s)@ + right_aligned3(n as nat),
{
    let d = decimal_string(n);
    let len = d.as_str().unicode_len();
    let ghost before = s@;
    let mut k: usize = len;
    while k < 3
        invariant
            len == decimal(n as nat).len(),
            len <= k <= 3 || (len > 3 && k == len),
            s@ == before + Seq::new((k - len) as nat, |i: int| ' '),
        decreases 3 - k,
    {
        push_char(s, ' ');
        assert(s@ =~= before + Seq::new((k + 1 - len) as nat, |i: int| ' '));
        k = k + 1;
    }
    crate::text::append_str(s, d.as_str());
    assert(s@ =~= before + right_aligned3(n as nat));
}

/// How a card of the surah panel is drawn: the card under the cursor while
/// the panel has the focus, the surah being read, or any other.
#[derive(Debug, Clone, Copy, PartialEq, Eq, Structural)]
pub enum CardStyle {
    Focus,
    Active,
    Plain,
}

/// A card of the surah panel: the index of its surah and how it is drawn.
#[derive(Debug, Clone, Copy, PartialEq, Eq, Structural)]
pub struct SidebarCard {
    pub surah_idx: usize,
    pub style: CardStyle,
}

pub open spec fn card_style_for(s: TuiView, surah_idx: usize) -> CardStyle {
    if s.focus == PaneFocus::SurahCards && surah_idx == s.surah_cursor_idx {
        CardStyle::Focus
    } else if surah_idx == s.selected_surah_idx {
        CardStyle::Active
    } else {
        CardStyle::Plain
    }
}

/// How many items `item_height` rows tall a list `height` rows tall shows:
/// as many as fit, and at least one.
pub open spec fn list_capacity_spec(height: u16, item_height: u16) -> usize {
    if height / item_height >= 1 {
        (height / item_height) as usize
    } else {
        1
    }
}

pub fn list_capacity(height: u16, item_height: u16) -> (r: usize)
    requires
        item_height > 0,
    ensures
        r == list_capacity_spec(height, item_height),
        r >= 1,
{
    let n = height / item_height;
    if n >= 1 {
        n as usize
    } else {
        1
    }
}

/// `i` is where `x` first stands in `f`.
pub open spec fn first_at(f: Seq<usize>, x: usize, i: int) -> bool {
    &&& 0 <= i < f.len()
    &&& f[i] == x
    &&& forall|j: int| 0 <= j < i ==> f[j] != x
}

/// Where `x` first stands in `f`, or 0 where it does not.
pub open spec fn position_or_zero(f: Seq<usize>, x: usize) -> usize {
    if exists|i: int| first_at(f, x, i) {
        (choose|i: int| first_at(f, x, i)) as usize
    } else {
        0
    }
}

fn position_of(v: &Vec<usize>, x: usize) -> (r: usize)
    ensures
        r == position_or_zero(v@, x),
        v@.len() > 0 ==> r < v@.len(),
{
    let mut i: usize = 0;
    while i < v.len()
        invariant
            i <= v@.len(),
            forall|j: int| 0 <= j < i ==> v@[j] != x,
        decreases v@.len() - i,
    {
        if v[i] == x {
            proof {
                assert(first_at(v@, x, i as int));
                let k = choose|k: int| first_at(v@, x, k);
                assert(first_at(v@, x, k));
                if k < i {
                    assert(v@[k] != x);
                } else if k > i {
                    assert(v@[i as int] == x);
                }
                assert(k == i);
            }
            return i;
        }
        i = i + 1;
    }
    proof {
        assert forall|k: int| !first_at(v@, x, k) by {
            if 0 <= k < v@.len() {
                assert(v@[k] != x);
            }
        }
    }
    0
}

/// The cards of the surah panel in a list area `height` rows tall, three
/// rows to a card: the window of the filtered surahs centred on the cursor's
/// card, or on the first card where the filter hides the cursor.
pub open spec fn sidebar_cards_spec(s: TuiView, height: u16) -> Seq<SidebarCard> {
    let f = filtered_surahs(s.surahs, s.surah_filter);
    let w = visible_window_spec(
        position_or_zero(f, s.surah_cursor_idx),
        f.len() as usize,
        list_capacity_spec(height, 3),
    );
    Seq::new(
        (w.1 - w.0) as nat,
        |k: int| SidebarCard { surah_idx: f[w.0 + k], style: card_style_for(s, f[w.0 + k]) },
    )
}

pub fn sidebar_cards(state: &TuiState, height: u16) -> (r: Vec<SidebarCard>)
    ensures
        r@ == sidebar_cards_spec(state@, height),
{
    let filtered = state.filtered_surah_indices();
    let visible = list_capacity(height, 3);
    let pos = position_of(&filtered, state.surah_cursor_idx);
    let total = filtered.len();
    let w = compute_visible_window(pos, total, visible);
    proof {
        lemma_visible_window(pos, total, visible);
    }
    let ghost s = state@;
    let ghost f = filtered@;
    let focused = state.focus == PaneFocus::SurahCards;
    let mut out: Vec<SidebarCard> = Vec::new();
    let mut k: usize = w.start;
    while k < w.end
        invariant
            w.start <= k <= w.end <= f.len(),
            f == filtered@,
            s == state@,
            focused == (s.focus == PaneFocus::SurahCards),
            out@ == Seq::new(
                (k - w.start) as nat,
                |j: int| SidebarCard { surah_idx: f[w.start + j], style: card_style_for(s, f[w.start + j]) },
            ),
        decreases w.end - k,
    {
        let idx = filtered[k];
        let style = if focused && idx == state.surah_cursor_idx {
            CardStyle::Focus
        } else if idx == state.selected_surah_idx {
            CardStyle::Active
        } else {
            CardStyle::Plain
        };
        out.push(SidebarCard { surah_idx: idx, style });
        k = k + 1;
        assert(out@ =~= Seq::new(
            (k - w.start) as nat,
            |j: int| SidebarCard { surah_idx: f[w.start + j], style: card_style_for(s, f[w.start + j]) },
        ));
    }
    out
}

/// The window of ayah rows drawn in a list area `height` rows tall, each
/// row as tall as the density and the translation make it, centred on the
/// selected ayah.
pub open spec fn ayah_list_capacity(s: TuiView, height: u16, density: ReaderDensity) -> usize {
    list_capacity_spec(height, row_height_for(density, s.show_translation))
}

pub fn ayah_list_window(state: &TuiState, height: u16, density: ReaderDensity) -> (r: VisibleWindow)
    requires
        window_start_fits(
            state@.selected_ayah_idx,
            state@.ayahs.len() as usize,
            ayah_list_capacity(state@, height, density),
        ),
    ensures
        (r.start, r.end) == visible_window_spec(
            state@.selected_ayah_idx,
            state@.ayahs.len() as usize,
            ayah_list_capacity(state@, height, density),
        ),
{
    let row = ayah_row_height(density, state.show_translation);
    let visible = list_capacity(height, row);
    compute_visible_window(state.selected_ayah_idx, state.ayahs.len(), visible)
}

/// The header's title: the surah's number with at least two digits, a dot,
/// and its Latin name in capitals.
pub fn header_title(state: &TuiState) -> (r: String)
    requires
        state.wf(),
    ensures
        r@ == zero_padded(state@.surahs[state@.selected_surah_idx as int].surah_no as nat, 2) + ". "@
            + ascii_upper(state@.surahs[state@.selected_surah_idx as int].name_id),
{
    let surah = state.current_surah();
    let mut s = String::new();
    push_zero_padded(&mut s, surah.surah_no as u64, 2);
    append_str(&mut s, ". ");
    let upper = ascii_uppercase(surah.name_id.as_str());
    append_str(&mut s, upper.as_str());
    s
}

/// The reference `surah:ayah` of the selected ayah, or `-` where none is
/// selected.
pub open spec fn active_ref_text(s: TuiView) -> Seq<char> {
    if s.selected_ayah_idx < s.ayahs.len() {
        let a = s.ayahs[s.selected_ayah_idx as int];
        decimal(a.surah_no as nat) + ":"@ + decimal(a.ayah_no as nat)
    } else {
        "-"@
    }
}

pub fn active_ayah_ref(state: &TuiState) -> (r: String)
    ensures
        r@ == active_ref_text(state@),
{
    match state.current_ayah() {
        Some(a) => {
            let mut s = String::new();
            push_decimal(&mut s, a.surah_no as u64);
            append_str(&mut s, ":");
            push_decimal(&mut s, a.ayah_no as u64);
            s
        },
        None => string_of("-"),
    }
}

/// The playback badge: `PAUSE` or `PLAY` while a player exists, `STOP`
/// without one.
pub open spec fn playback_badge_text(p: Option<PlayerView>) -> Seq<char> {
    match p {
        Some(q) => if q.paused {
            "PAUSE"@
        } else {
            "PLAY"@
        },
        None => "STOP"@,
    }
}

pub fn playback_badge(state: &TuiState) -> (r: &'static str)
    ensures
        r@ == playback_badge_text(state@.player),
{
    match &state.player {
        Some(p) => if p.is_paused() {
            "PAUSE"
        } else {
            "PLAY"
        },
        None => "STOP",
    }
}

/// The speed shown beside the badge: the player's, or normal speed without
/// a player.
pub open spec fn playback_speed_text(p: Option<PlayerView>) -> Seq<char> {
    match p {
        Some(q) => speed_text(q.rate),
        None => speed_text(100),
    }
}

pub fn playback_speed(state: &TuiState) -> (r: String)
    ensures
        r@ == playback_speed_text(state@.player),
{
    match &state.player {
        Some(p) => speed_label(p.playback_rate()),
        None => speed_label(100),
    }
}

/// The two hints of the reader's summary: what the translation setting
/// does, and how to reach the surah panel.
pub fn reader_hints(show_translation: bool, sidebar_collapsed: bool) -> (r: (&'static str, &'static str))
    ensures
        r.0@ == (if show_translation {
            "terjemahan aktif"@
        } else {
            "reader fokus Arabic"@
        }),
        r.1@ == (if sidebar_collapsed {
            "Ctrl+B untuk membuka panel surat."@
        } else {
            "Panel surat terbuka. Ketik untuk filter."@
        }),
{
    (
        if show_translation {
            "terjemahan aktif"
        } else {
            "reader fokus Arabic"
        },
        if sidebar_collapsed {
            "Ctrl+B untuk membuka panel surat."
        } else {
            "Panel surat terbuka. Ketik untuk filter."
        },
    )
}

} // verus!
