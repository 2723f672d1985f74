//! Arabic text made ready for a terminal that does not shape it: normalised,
//! reshaped into presentation forms, wrapped, and each line put in display
//! order for right-to-left reading.
use vstd::prelude::*;

use crate::text::{append_str, push_char};

verus! {

/// What NFKC normalisation makes of a text.
pub uninterp spec fn nfkc_normalized(s: Seq<char>) -> Seq<char>;

/// `UnicodeNormalization::nfkc` of the unicode-normalization crate, collected
/// into a string. The contract says only that the result is a function of
/// the text.
#[verifier::external_body]
fn nfkc(text: &str) -> (r: String)
    ensures
        r@ == nfkc_normalized(text@),
{
    unicode_normalization::UnicodeNormalization::nfkc(text).collect()
}

/// What `ArabicReshaper::reshape` makes of a text, with the reshaper's
/// `delete_harakat` and `delete_tatweel` settings as given and its other
/// settings at their defaults.
pub uninterp spec fn arabic_reshaped(
    s: Seq<char>,
    delete_harakat: bool,
    delete_tatweel: bool,
) -> Seq<char>;

/// The zero-width joiner, U+200D.
pub open spec fn zwj() -> char {
    '\u{200D}'
}

/// `ArabicReshaper::new` of the arabic_reshaper crate, with the two settings
/// set, then `reshape`. The contract says only that the result is a function
/// of the text and the settings. The reshaper drops a zero-width joiner from
/// its list of letters but not from the text in which it looks for
/// ligatures, so after a joiner its ligature positions run past that list
/// and it can panic: text with a joiner is left out. It also counts the
/// letters before each haraka in an `i16`, which overflows from 32 768
/// characters on: longer text is left out too.
#[verifier::external_body]
fn reshape(text: &str, delete_harakat: bool, delete_tatweel: bool) -> (r: String)
    requires
        !text@.contains(zwj()),
        text@.len() < 32768,
    ensures
        r@ == arabic_reshaped(text@, delete_harakat, delete_tatweel),
{
    let mut reshaper = arabic_reshaper::ArabicReshaper::new();
    reshaper.configuration.insert("delete_harakat", delete_harakat);
    reshaper.configuration.insert("delete_tatweel", delete_tatweel);
    reshaper.reshape(text)
}

/// The lines that `textwrap::wrap` breaks a text into at a width.
pub uninterp spec fn wrapped_lines(s: Seq<char>, width: usize) -> Seq<Seq<char>>;

pub open spec fn lines_view(v: Seq<String>) -> Seq<Seq<char>> {
    v.map_values(|l: String| l@)
}

/// `textwrap::wrap` with a width in columns, each line made an owned
/// string. The contract says only that the lines are a function of the text
/// and the width.
#[verifier::external_body]
fn wrap(text: &str, width: usize) -> (r: Vec<String>)
    requires
        width > 0,
    ensures
        lines_view(r@) == wrapped_lines(text@, width),
{
    textwrap::wrap(text, width).into_iter().map(|l| l.into_owned()).collect()
}

/// A line in display order when laid out right to left: the Unicode
/// bidirectional algorithm with a right-to-left paragraph level, over the
/// line's first paragraph; a line without one stays as it is.
pub uninterp spec fn rtl_display(s: Seq<char>) -> Seq<char>;

/// `BidiInfo::new` of the unicode-bidi crate with `Level::rtl()`, then
/// `reorder_line` over the first paragraph's range. The contract says only
/// that the result is a function of the line.
#[verifier::external_body]
fn reorder_rtl(line: &str) -> (r: String)
    ensures
        r@ == rtl_display(line@),
{
    let info = unicode_bidi::BidiInfo::new(line, Some(unicode_bidi::Level::rtl()));
    match info.paragraphs.first() {
        Some(para) => info.reorder_line(para, para.range.clone()).into_owned(),
        None => line.to_string(),
    }
}

/// Lines joined with line breaks.
pub open spec fn joined(lines: Seq<Seq<char>>) -> Seq<char>
    decreases lines.len(),
{
    if lines.len() == 0 {
        seq![]
    } else if lines.len() == 1 {
        lines[0]
    } else {
        joined(lines.drop_last()) + seq!['\n'] + lines.last()
    }
}

/// The lines of the reshaped text: wrapped at the width when one above zero
/// is given, else one line.
pub open spec fn arabic_lines(reshaped: Seq<char>, max_width: Option<u16>) -> Seq<Seq<char>> {
    match max_width {
        Some(w) => if w > 0 {
            wrapped_lines(reshaped, w as usize)
        } else {
            seq![reshaped]
        },
        None => seq![reshaped],
    }
}

/// A text as the reader shows it: NFKC-normalised, reshaped keeping its
/// harakat and tatweel, wrapped, and each line in right-to-left display
/// order.
pub open spec fn arabic_display(text: Seq<char>, max_width: Option<u16>) -> Seq<char> {
    let reshaped = arabic_reshaped(nfkc_normalized(text), false, false);
    joined(arabic_lines(reshaped, max_width).map_values(|l: Seq<char>| rtl_display(l)))
}

/// Whether a text holds a zero-width joiner.
fn has_zwj(text: &str) -> (r: bool)
    ensures
        r == text@.contains(zwj()),
{
    let n = text.unicode_len();
    let mut i: usize = 0;
    while i < n
        invariant
            n == text@.len(),
            i <= n,
            forall|k: int| 0 <= k < i ==> text@[k] != zwj(),
        decreases n - i,
    {
        if text.get_char(i) == '\u{200D}' {
            return true;
        }
        i = i + 1;
    }
    false
}

/// A text as the reader shows it, where its normalised form holds no
/// zero-width joiner and fewer than 32 768 characters (the reshaper cannot
/// take more).
pub fn format_arabic(text: &str, max_width: Option<u16>) -> (r: String)
    requires
        !nfkc_normalized(text@).contains(zwj()),
        nfkc_normalized(text@).len() < 32768,
    ensures
        r@ == arabic_display(text@, max_width),
{
    let normalized = nfkc(text);
    format_normalized(normalized.as_str(), max_width, Ghost(text@))
}

/// A text as the reader shows it, or `None` where its normalised form holds
/// a zero-width joiner or 32 768 characters or more, which the reshaper
/// cannot take.
pub fn format_arabic_checked(text: &str, max_width: Option<u16>) -> (r: Option<String>)
    ensures
        r is None <==> (nfkc_normalized(text@).contains(zwj()) || nfkc_normalized(text@).len()
            >= 32768),
        r matches Some(s) ==> s@ == arabic_display(text@, max_width),
{
    let normalized = nfkc(text);
    if has_zwj(normalized.as_str()) || normalized.as_str().unicode_len() >= 32768 {
        return None;
    }
    Some(format_arabic(text, max_width))
}

fn format_normalized(normalized: &str, max_width: Option<u16>, Ghost(text): Ghost<Seq<char>>) -> (r:
    String)
    requires
        normalized@ == nfkc_normalized(text),
        !normalized@.contains(zwj()),
        normalized@.len() < 32768,
    ensures
        r@ == arabic_display(text, max_width),
{
    let reshaped = reshape(normalized, false, false);
    let lines: Vec<String> = match max_width {
        Some(w) => {
            if w > 0 {
                wrap(reshaped.as_str(), w as usize)
            } else {
                vec![reshaped]
            }
        },
        None => vec![reshaped],
    };
    let ghost all = arabic_lines(arabic_reshaped(nfkc_normalized(text), false, false), max_width);
    assert(lines_view(lines@) =~= all);
    let ghost shown = all.map_values(|l: Seq<char>| rtl_display(l));
    let mut result = String::new();
    let n = lines.len();
    let mut i: usize = 0;
    while i < n
        invariant
            n == lines@.len(),
            n == all.len(),
            lines_view(lines@) == all,
            shown == all.map_values(|l: Seq<char>| rtl_display(l)),
            i <= n,
            result@ == joined(shown.subrange(0, i as int)),
        decreases n - i,
    {
        if i > 0 {
            push_char(&mut result, '\n');
        }
        let line = reorder_rtl(lines[i].as_str());
        append_str(&mut result, line.as_str());
        assert(lines_view(lines@)[i as int] == lines@[i as int]@);
        assert(shown.subrange(0, i + 1).drop_last() =~= shown.subrange(0, i as int));
        assert(result@ =~= joined(shown.subrange(0, i + 1)));
        i = i + 1;
    }
    assert(shown.subrange(0, n as int) =~= shown);
    result
}

} // verus!
