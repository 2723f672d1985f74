//! Colour themes of the reader.
use vstd::prelude::*;
use vstd::string::*;

use crate::text::{str_eq, string_of, to_lowercase, unicode_lowercase};

verus! {

/// A terminal colour: one of the sixteen named colours or an RGB triple.
#[derive(Debug, Clone, Copy, PartialEq, Eq, Structural)]
pub enum ThemeColor {
    Black,
    Red,
    Green,
    Yellow,
    Blue,
    Magenta,
    Cyan,
    Gray,
    DarkGray,
    LightRed,
    LightGreen,
    LightYellow,
    LightBlue,
    LightMagenta,
    LightCyan,
    White,
    Rgb(u8, u8, u8),
}

/// A named set of colours.
#[derive(Debug)]
pub struct Theme {
    pub name: String,
    pub bg: ThemeColor,
    pub fg: ThemeColor,
    pub highlight_bg: ThemeColor,
    pub highlight_fg: ThemeColor,
    pub accent: ThemeColor,
}

pub struct ThemeView {
    pub name: Seq<char>,
    pub bg: ThemeColor,
    pub fg: ThemeColor,
    pub highlight_bg: ThemeColor,
    pub highlight_fg: ThemeColor,
    pub accent: ThemeColor,
}

impl View for Theme {
    type V = ThemeView;

    open spec fn view(&self) -> ThemeView {
        ThemeView {
            name: self.name@,
            bg: self.bg,
            fg: self.fg,
            highlight_bg: self.highlight_bg,
            highlight_fg: self.highlight_fg,
            accent: self.accent,
        }
    }
}

impl Theme {
    pub fn duplicate(&self) -> (r: Self)
        ensures
            r.name@ == self.name@,
            r.bg == self.bg,
            r.fg == self.fg,
            r.highlight_bg == self.highlight_bg,
            r.highlight_fg == self.highlight_fg,
            r.accent == self.accent,
    {
        Theme {
            name: self.name.clone(),
            bg: self.bg,
            fg: self.fg,
            highlight_bg: self.highlight_bg,
            highlight_fg: self.highlight_fg,
            accent: self.accent,
        }
    }
}

/// The colour that a lower-cased colour name denotes.
pub open spec fn named_color(s: Seq<char>) -> Option<ThemeColor> {
    if s == "black"@ {
        Some(ThemeColor::Black)
    } else if s == "red"@ {
        Some(ThemeColor::Red)
    } else if s == "green"@ {
        Some(ThemeColor::Green)
    } else if s == "yellow"@ {
        Some(ThemeColor::Yellow)
    } else if s == "blue"@ {
        Some(ThemeColor::Blue)
    } else if s == "magenta"@ {
        Some(ThemeColor::Magenta)
    } else if s == "cyan"@ {
        Some(ThemeColor::Cyan)
    } else if s == "gray"@ {
        Some(ThemeColor::Gray)
    } else if s == "dark_gray"@ {
        Some(ThemeColor::DarkGray)
    } else if s == "light_red"@ {
        Some(ThemeColor::LightRed)
    } else if s == "light_green"@ {
        Some(ThemeColor::LightGreen)
    } else if s == "light_yellow"@ {
        Some(ThemeColor::LightYellow)
    } else if s == "light_blue"@ {
        Some(ThemeColor::LightBlue)
    } else if s == "light_magenta"@ {
        Some(ThemeColor::LightMagenta)
    } else if s == "light_cyan"@ {
        Some(ThemeColor::LightCyan)
    } else if s == "white"@ {
        Some(ThemeColor::White)
    } else {
        None
    }
}

pub open spec fn hex_digit_value(c: char) -> Option<nat> {
    if '0' <= c <= '9' {
        Some(((c as u32) - ('0' as u32)) as nat)
    } else if 'a' <= c <= 'f' {
        Some(((c as u32) - ('a' as u32) + 10) as nat)
    } else if 'A' <= c <= 'F' {
        Some(((c as u32) - ('A' as u32) + 10) as nat)
    } else {
        None
    }
}

/// What `u8::from_str_radix(.., 16)` makes of two ASCII characters: two hex
/// digits, or `+` and one hex digit.
pub open spec fn hex_byte(a: char, b: char) -> Option<u8> {
    if a == '+' {
        match hex_digit_value(b) {
            Some(y) => Some(y as u8),
            None => None,
        }
    } else {
        match (hex_digit_value(a), hex_digit_value(b)) {
            (Some(x), Some(y)) => Some((x * 16 + y) as u8),
            _ => None,
        }
    }
}

/// The number of bytes that `c` takes in UTF-8.
pub open spec fn utf8_width(c: char) -> nat {
    let u = c as u32;
    if u < 0x80 {
        1
    } else if u < 0x800 {
        2
    } else if u < 0x10000 {
        3
    } else {
        4
    }
}

/// The number of bytes that `s` takes in UTF-8 (`str::len`).
pub open spec fn utf8_len(s: Seq<char>) -> nat
    decreases s.len(),
{
    if s.len() == 0 {
        0
    } else {
        utf8_len(s.drop_last()) + utf8_width(s.last())
    }
}

pub open spec fn all_ascii(s: Seq<char>) -> bool {
    forall|i: int| 0 <= i < s.len() ==> (#[trigger] s[i] as u32) < 0x80
}

proof fn lemma_utf8_len_ascii(s: Seq<char>)
    requires
        all_ascii(s),
    ensures
        utf8_len(s) == s.len(),
    decreases s.len(),
{
    if s.len() > 0 {
        assert(s.last() == s[s.len() - 1]);
        lemma_utf8_len_ascii(s.drop_last());
    }
}

fn byte_len(s: &str) -> (r: usize)
    ensures
        r as nat == utf8_len(s@) || (r == usize::MAX && utf8_len(s@) >= usize::MAX),
{
    let n = s.unicode_len();
    let mut total: usize = 0;
    let mut i: usize = 0;
    while i < n
        invariant
            n == s@.len(),
            i <= n,
            total as nat == utf8_len(s@.subrange(0, i as int)),
        decreases n - i,
    {
        let u = s.get_char(i) as u32;
        let w: usize = if u < 0x80 {
            1
        } else if u < 0x800 {
            2
        } else if u < 0x10000 {
            3
        } else {
            4
        };
        assert(s@.subrange(0, i + 1).drop_last() =~= s@.subrange(0, i as int));
        if total > usize::MAX - w {
            proof {
                lemma_utf8_len_prefix(s@, i + 1);
            }
            return usize::MAX;
        }
        total = total + w;
        i = i + 1;
    }
    assert(s@.subrange(0, n as int) =~= s@);
    total
}

proof fn lemma_utf8_len_prefix(s: Seq<char>, k: int)
    requires
        0 <= k <= s.len(),
    ensures
        utf8_len(s.subrange(0, k)) <= utf8_len(s),
    decreases s.len() - k,
{
    if k < s.len() {
        lemma_utf8_len_prefix(s, k + 1);
        assert(s.subrange(0, k + 1).drop_last() =~= s.subrange(0, k));
    } else {
        assert(s.subrange(0, k) =~= s);
    }
}

/// Everything after the leading `#` characters.
pub open spec fn strip_hashes(s: Seq<char>) -> Seq<char>
    decreases s.len(),
{
    if s.len() > 0 && s[0] == '#' {
        strip_hashes(s.drop_first())
    } else {
        s
    }
}

/// Why a colour was refused.
#[derive(Debug, Clone, Copy, PartialEq, Eq, Structural)]
pub enum ColorError {
    InvalidHex,
    InvalidHexLength,
    Unknown,
}

/// The colour that a theme file names: a colour name in any case, or
/// `#RRGGBB`.
pub open spec fn color_spec(s: Seq<char>) -> Result<ThemeColor, ColorError> {
    match named_color(unicode_lowercase(s)) {
        Some(c) => Ok(c),
        None => if s.len() > 0 && s[0] == '#' {
            let hex = strip_hashes(s);
            if utf8_len(hex) == 6 && !all_ascii(hex) {
                Err(ColorError::InvalidHex)
            } else if utf8_len(hex) == 6 {
                match (hex_byte(hex[0], hex[1]), hex_byte(hex[2], hex[3]), hex_byte(hex[4], hex[5])) {
                    (Some(r), Some(g), Some(b)) => Ok(ThemeColor::Rgb(r, g, b)),
                    _ => Err(ColorError::InvalidHex),
                }
            } else {
                Err(ColorError::InvalidHexLength)
            }
        } else {
            Err(ColorError::Unknown)
        },
    }
}

fn hex_digit(c: char) -> (r: Option<u8>)
    ensures
        match hex_digit_value(c) {
            Some(v) => r == Some(v as u8),
            None => r is None,
        },
{
    if '0' <= c && c <= '9' {
        Some((c as u32 - '0' as u32) as u8)
    } else if 'a' <= c && c <= 'f' {
        Some((c as u32 - 'a' as u32 + 10) as u8)
    } else if 'A' <= c && c <= 'F' {
        Some((c as u32 - 'A' as u32 + 10) as u8)
    } else {
        None
    }
}

fn parse_hex_byte(a: char, b: char) -> (r: Option<u8>)
    ensures
        r == hex_byte(a, b),
{
    if a == '+' {
        return hex_digit(b);
    }
    match (hex_digit(a), hex_digit(b)) {
        (Some(x), Some(y)) => Some(x * 16 + y),
        _ => None,
    }
}

fn named(s: &str) -> (r: Option<ThemeColor>)
    ensures
        r == named_color(s@),
{
    if str_eq(s, "black") {
        Some(ThemeColor::Black)
    } else if str_eq(s, "red") {
        Some(ThemeColor::Red)
    } else if str_eq(s, "green") {
        Some(ThemeColor::Green)
    } else if str_eq(s, "yellow") {
        Some(ThemeColor::Yellow)
    } else if str_eq(s, "blue") {
        Some(ThemeColor::Blue)
    } else if str_eq(s, "magenta") {
        Some(ThemeColor::Magenta)
    } else if str_eq(s, "cyan") {
        Some(ThemeColor::Cyan)
    } else if str_eq(s, "gray") {
        Some(ThemeColor::Gray)
    } else if str_eq(s, "dark_gray") {
        Some(ThemeColor::DarkGray)
    } else if str_eq(s, "light_red") {
        Some(ThemeColor::LightRed)
    } else if str_eq(s, "light_green") {
        Some(ThemeColor::LightGreen)
    } else if str_eq(s, "light_yellow") {
        Some(ThemeColor::LightYellow)
    } else if str_eq(s, "light_blue") {
        Some(ThemeColor::LightBlue)
    } else if str_eq(s, "light_magenta") {
        Some(ThemeColor::LightMagenta)
    } else if str_eq(s, "light_cyan") {
        Some(ThemeColor::LightCyan)
    } else if str_eq(s, "white") {
        Some(ThemeColor::White)
    } else {
        None
    }
}

/// Some prefix of `s` takes exactly `b` bytes in UTF-8: a slice may end there.
pub open spec fn byte_cut(s: Seq<char>, b: nat) -> bool {
    exists|k: int| 0 <= k <= s.len() && utf8_len(#[trigger] s.subrange(0, k)) == b
}

fn ascii_only(s: &str) -> (r: bool)
    ensures
        r == all_ascii(s@),
{
    let n = s.unicode_len();
    let mut i: usize = 0;
    while i < n
        invariant
            n == s@.len(),
            i <= n,
            forall|k: int| 0 <= k < i ==> (#[trigger] s@[k] as u32) < 0x80,
        decreases n - i,
    {
        if s.get_char(i) as u32 >= 0x80 {
            return false;
        }
        i = i + 1;
    }
    true
}

/// Reads a colour from a theme file. A hex part of six bytes is read as
/// three slices of two bytes; where a slice would end inside a multi-byte
/// character the slicing panics, and such input is left out. Other non-ASCII
/// hex parts are invalid hex.
pub fn parse_color(s: &str) -> (r: Result<ThemeColor, ColorError>)
    requires
        (s@.len() > 0 && s@[0] == '#' && utf8_len(strip_hashes(s@)) == 6) ==> (byte_cut(
            strip_hashes(s@),
            2,
        ) && byte_cut(strip_hashes(s@), 4)),
    ensures
        r == color_spec(s@),
{
    let lowered = to_lowercase(s);
    if let Some(c) = named(lowered.as_str()) {
        return Ok(c);
    }
    let n = s.unicode_len();
    if n == 0 || s.get_char(0) != '#' {
        return Err(ColorError::Unknown);
    }
    let mut i: usize = 0;
    assert(s@.subrange(0, n as int) =~= s@);
    while i < n && s.get_char(i) == '#'
        invariant
            n == s@.len(),
            i <= n,
            strip_hashes(s@) == strip_hashes(s@.subrange(i as int, n as int)),
        decreases n - i,
    {
        assert(s@.subrange(i as int, n as int).drop_first() =~= s@.subrange(i + 1, n as int));
        i = i + 1;
    }
    let ghost hex = s@.subrange(i as int, n as int);
    assert(strip_hashes(hex) == hex);
    let rest = s.substring_char(i, n);
    if byte_len(rest) != 6 {
        return Err(ColorError::InvalidHexLength);
    }
    if !ascii_only(rest) {
        return Err(ColorError::InvalidHex);
    }
    proof {
        lemma_utf8_len_ascii(hex);
    }
    let r = parse_hex_byte(s.get_char(i), s.get_char(i + 1));
    let g = parse_hex_byte(s.get_char(i + 2), s.get_char(i + 3));
    let b = parse_hex_byte(s.get_char(i + 4), s.get_char(i + 5));
    assert(hex[0] == s@[i as int] && hex[1] == s@[i + 1] && hex[2] == s@[i + 2]);
    assert(hex[3] == s@[i + 3] && hex[4] == s@[i + 4] && hex[5] == s@[i + 5]);
    match (r, g, b) {
        (Some(r), Some(g), Some(b)) => Ok(ThemeColor::Rgb(r, g, b)),
        _ => Err(ColorError::InvalidHex),
    }
}

/// The built-in themes, used when no theme file can be read: Light, Dark.
pub fn default_themes() -> (r: Vec<Theme>)
    ensures
        r@.len() == 2,
        r@[0].name@ == "Light"@,
        r@[1].name@ == "Dark"@,
{
    let mut v = Vec::new();
    v.push(
        Theme {
            name: string_of("Light"),
            bg: ThemeColor::White,
            fg: ThemeColor::Black,
            highlight_bg: ThemeColor::Blue,
            highlight_fg: ThemeColor::White,
            accent: ThemeColor::Blue,
        },
    );
    v.push(
        Theme {
            name: string_of("Dark"),
            bg: ThemeColor::Rgb(18, 18, 18),
            fg: ThemeColor::Rgb(224, 224, 224),
            highlight_bg: ThemeColor::Cyan,
            highlight_fg: ThemeColor::Black,
            accent: ThemeColor::Cyan,
        },
    );
    v
}

/// A terminal style: foreground and background colours, if set, and
/// whether the text is bold.
#[derive(Debug, Clone, Copy, PartialEq, Eq, Structural)]
pub struct StyleSpec {
    pub fg: Option<ThemeColor>,
    pub bg: Option<ThemeColor>,
    pub bold: bool,
}

/// The styles the reader draws with.
#[derive(Debug, Clone, Copy, PartialEq, Eq, Structural)]
pub struct ThemeStyles {
    pub app_bg: StyleSpec,
    pub frame: StyleSpec,
    pub muted: StyleSpec,
    pub accent: StyleSpec,
    pub strong: StyleSpec,
    pub panel: StyleSpec,
    pub card: StyleSpec,
    pub card_active: StyleSpec,
    pub card_focus: StyleSpec,
    pub chip: StyleSpec,
}

pub open spec fn style(fg: Option<ThemeColor>, bg: Option<ThemeColor>, bold: bool) -> StyleSpec {
    StyleSpec { fg, bg, bold }
}

/// The styles of a theme. Without colour, only the emphasis stays: accent,
/// strong text, the active and focused cards and the chips are bold.
pub open spec fn theme_styles_spec(t: ThemeView, color_enabled: bool) -> ThemeStyles {
    if !color_enabled {
        let plain = style(None, None, false);
        let bold = style(None, None, true);
        ThemeStyles {
            app_bg: plain,
            frame: plain,
            muted: plain,
            accent: bold,
            strong: bold,
            panel: plain,
            card: plain,
            card_active: bold,
            card_focus: bold,
            chip: bold,
        }
    } else {
        let highlight = style(Some(t.highlight_fg), Some(t.highlight_bg), true);
        ThemeStyles {
            app_bg: style(None, Some(t.bg), false),
            frame: style(Some(t.fg), None, false),
            muted: style(Some(ThemeColor::Gray), None, false),
            accent: style(Some(t.accent), None, true),
            strong: style(Some(t.fg), None, true),
            panel: style(Some(t.fg), Some(t.bg), false),
            card: style(Some(t.fg), Some(t.bg), false),
            card_active: highlight,
            card_focus: highlight,
            chip: highlight,
        }
    }
}

fn style_of(fg: Option<ThemeColor>, bg: Option<ThemeColor>, bold: bool) -> (r: StyleSpec)
    ensures
        r == style(fg, bg, bold),
{
    StyleSpec { fg, bg, bold }
}

impl ThemeStyles {
    pub fn from_theme(theme: &Theme, color_enabled: bool) -> (r: Self)
        ensures
            r == theme_styles_spec(theme@, color_enabled),
    {
        if !color_enabled {
            let plain = style_of(None, None, false);
            let bold = style_of(None, None, true);
            return ThemeStyles {
                app_bg: plain,
                frame: plain,
                muted: plain,
                accent: bold,
                strong: bold,
                panel: plain,
                card: plain,
                card_active: bold,
                card_focus: bold,
                chip: bold,
            };
        }
        let highlight = style_of(Some(theme.highlight_fg), Some(theme.highlight_bg), true);
        ThemeStyles {
            app_bg: style_of(None, Some(theme.bg), false),
            frame: style_of(Some(theme.fg), None, false),
            muted: style_of(Some(ThemeColor::Gray), None, false),
            accent: style_of(Some(theme.accent), None, true),
            strong: style_of(Some(theme.fg), None, true),
            panel: style_of(Some(theme.fg), Some(theme.bg), false),
            card: style_of(Some(theme.fg), Some(theme.bg), false),
            card_active: highlight,
            card_focus: highlight,
            chip: highlight,
        }
    }
}

} // verus!
