//! Validated value types and the records that flow between the use cases.
use vstd::prelude::*;
use vstd::string::*;

use crate::qari_urls::{lookup, QariUrls};
use crate::text::{
    append_str, ascii_lower, ascii_lowercase, char_ascii_lower, is_ascii_alpha, push_char,
    push_decimal, push_signed_decimal, str_eq, string_of, trim, trim_str,
};
use crate::text::{decimal, signed_decimal};

verus! {

/// Why a raw value was refused.
#[derive(Debug, Clone, PartialEq, Eq)]
pub enum DomainError {
    InvalidSurah(u16),
    InvalidAyah(u16),
    InvalidBookmarkId(i64),
    InvalidQari(String),
    EmptyLanguageTag,
    InvalidLanguageTag(String),
    InvalidSearchLimit(u16),
    InvalidPlanCount(usize),
}

pub open spec fn domain_error_message(e: DomainError) -> Seq<char> {
    match e {
        DomainError::InvalidSurah(v) => "surah must be between 1 and 114, got "@ + decimal(v as nat),
        DomainError::InvalidAyah(v) => "ayah must be between 1 and 286, got "@ + decimal(v as nat),
        DomainError::InvalidBookmarkId(v) => "bookmark id must be > 0, got "@ + signed_decimal(
            v as int,
        ),
        DomainError::InvalidQari(s) => "unsupported qari id: "@ + s@,
        DomainError::EmptyLanguageTag => "language tag cannot be empty"@,
        DomainError::InvalidLanguageTag(s) => "language tag contains invalid characters: "@ + s@,
        DomainError::InvalidSearchLimit(v) => "search limit must be between 1 and 200, got "@
            + decimal(v as nat),
        DomainError::InvalidPlanCount(v) => "plan count must be between 1 and 1000, got "@
            + decimal(v as nat),
    }
}

impl DomainError {
    /// The human-readable description of the error.
    pub fn message(&self) -> (r: String)
        ensures
            r@ == domain_error_message(*self),
    {
        let mut s = String::new();
        match self {
            DomainError::InvalidSurah(v) => {
                append_str(&mut s, "surah must be between 1 and 114, got ");
                push_decimal(&mut s, *v as u64);
            },
            DomainError::InvalidAyah(v) => {
                append_str(&mut s, "ayah must be between 1 and 286, got ");
                push_decimal(&mut s, *v as u64);
            },
            DomainError::InvalidBookmarkId(v) => {
                append_str(&mut s, "bookmark id must be > 0, got ");
                push_signed_decimal(&mut s, *v);
            },
            DomainError::InvalidQari(q) => {
                append_str(&mut s, "unsupported qari id: ");
                append_str(&mut s, q.as_str());
            },
            DomainError::EmptyLanguageTag => {
                append_str(&mut s, "language tag cannot be empty");
            },
            DomainError::InvalidLanguageTag(t) => {
                append_str(&mut s, "language tag contains invalid characters: ");
                append_str(&mut s, t.as_str());
            },
            DomainError::InvalidSearchLimit(v) => {
                append_str(&mut s, "search limit must be between 1 and 200, got ");
                push_decimal(&mut s, *v as u64);
            },
            DomainError::InvalidPlanCount(v) => {
                append_str(&mut s, "plan count must be between 1 and 1000, got ");
                push_decimal(&mut s, *v as u64);
            },
        }
        assert(s@ =~= domain_error_message(*self));
        s
    }
}

// ---------------------------------------------------------------------------
// Numbers with a fixed range
// ---------------------------------------------------------------------------

/// A surah number, 1 to 114.
#[derive(Debug, Clone, Copy, PartialEq, Eq, Structural, PartialOrd, Ord, Hash)]
pub struct SurahNumber(u16);

impl View for SurahNumber {
    type V = u16;

    closed spec fn view(&self) -> u16 {
        self.0
    }
}

impl SurahNumber {
    pub const MIN: u16 = 1;

    pub const MAX: u16 = 114;

    #[verifier::type_invariant]
    closed spec fn in_range(self) -> bool {
        1 <= self.0 <= 114
    }

    pub fn new(value: u16) -> (r: Result<Self, DomainError>)
        ensures
            (1 <= value <= 114) <==> r is Ok,
            r matches Ok(s) ==> s@ == value,
            r matches Err(e) ==> e == DomainError::InvalidSurah(value),
    {
        if 1 <= value && value <= 114 {
            Ok(SurahNumber(value))
        } else {
            Err(DomainError::InvalidSurah(value))
        }
    }

    pub fn value(self) -> (r: u16)
        ensures
            r == self@,
            1 <= r <= 114,
    {
        proof {
            use_type_invariant(&self);
        }
        self.0
    }
}

/// An ayah number, 1 to 286 (the length of the longest surah).
#[derive(Debug, Clone, Copy, PartialEq, Eq, Structural, PartialOrd, Ord, Hash)]
pub struct AyahNumber(u16);

impl View for AyahNumber {
    type V = u16;

    closed spec fn view(&self) -> u16 {
        self.0
    }
}

impl AyahNumber {
    pub const MIN: u16 = 1;

    pub const MAX: u16 = 286;

    #[verifier::type_invariant]
    closed spec fn in_range(self) -> bool {
        1 <= self.0 <= 286
    }

    pub fn new(value: u16) -> (r: Result<Self, DomainError>)
        ensures
            (1 <= value <= 286) <==> r is Ok,
            r matches Ok(s) ==> s@ == value,
            r matches Err(e) ==> e == DomainError::InvalidAyah(value),
    {
        if 1 <= value && value <= 286 {
            Ok(AyahNumber(value))
        } else {
            Err(DomainError::InvalidAyah(value))
        }
    }

    pub fn value(self) -> (r: u16)
        ensures
            r == self@,
            1 <= r <= 286,
    {
        proof {
            use_type_invariant(&self);
        }
        self.0
    }
}

/// The id of a stored bookmark, always positive.
#[derive(Debug, Clone, Copy, PartialEq, Eq, Structural, PartialOrd, Ord, Hash)]
pub struct BookmarkId(i64);

impl View for BookmarkId {
    type V = i64;

    closed spec fn view(&self) -> i64 {
        self.0
    }
}

impl BookmarkId {
    #[verifier::type_invariant]
    closed spec fn positive(self) -> bool {
        self.0 > 0
    }

    pub fn new(value: i64) -> (r: Result<Self, DomainError>)
        ensures
            (value > 0) <==> r is Ok,
            r matches Ok(s) ==> s@ == value,
            r matches Err(e) ==> e == DomainError::InvalidBookmarkId(value),
    {
        if value > 0 {
            Ok(BookmarkId(value))
        } else {
            Err(DomainError::InvalidBookmarkId(value))
        }
    }

    pub fn value(self) -> (r: i64)
        ensures
            r == self@,
            r > 0,
    {
        proof {
            use_type_invariant(&self);
        }
        self.0
    }
}

/// How many results a search may return, 1 to 200.
#[derive(Debug, Clone, Copy, PartialEq, Eq, Structural, PartialOrd, Ord, Hash)]
pub struct SearchLimit(u16);

impl View for SearchLimit {
    type V = u16;

    closed spec fn view(&self) -> u16 {
        self.0
    }
}

impl SearchLimit {
    pub const MIN: u16 = 1;

    pub const MAX: u16 = 200;

    #[verifier::type_invariant]
    closed spec fn in_range(self) -> bool {
        1 <= self.0 <= 200
    }

    pub fn new(value: u16) -> (r: Result<Self, DomainError>)
        ensures
            (1 <= value <= 200) <==> r is Ok,
            r matches Ok(s) ==> s@ == value,
            r matches Err(e) ==> e == DomainError::InvalidSearchLimit(value),
    {
        if 1 <= value && value <= 200 {
            Ok(SearchLimit(value))
        } else {
            Err(DomainError::InvalidSearchLimit(value))
        }
    }

    pub fn value(self) -> (r: u16)
        ensures
            r == self@,
            1 <= r <= 200,
    {
        proof {
            use_type_invariant(&self);
        }
        self.0
    }
}

/// How many ayahs a daily plan holds, 1 to 1000.
#[derive(Debug, Clone, Copy, PartialEq, Eq, Structural, PartialOrd, Ord, Hash)]
pub struct PlanCount(usize);

impl View for PlanCount {
    type V = usize;

    closed spec fn view(&self) -> usize {
        self.0
    }
}

impl PlanCount {
    pub const MIN: usize = 1;

    pub const MAX: usize = 1000;

    #[verifier::type_invariant]
    closed spec fn in_range(self) -> bool {
        1 <= self.0 <= 1000
    }

    pub fn new(value: usize) -> (r: Result<Self, DomainError>)
        ensures
            (1 <= value <= 1000) <==> r is Ok,
            r matches Ok(s) ==> s@ == value,
            r matches Err(e) ==> e == DomainError::InvalidPlanCount(value),
    {
        if 1 <= value && value <= 1000 {
            Ok(PlanCount(value))
        } else {
            Err(DomainError::InvalidPlanCount(value))
        }
    }

    pub fn value(self) -> (r: usize)
        ensures
            r == self@,
            1 <= r <= 1000,
    {
        proof {
            use_type_invariant(&self);
        }
        self.0
    }
}

/// A position in the Qur'an: surah and ayah.
#[derive(Debug, Clone, Copy, PartialEq, Eq, Structural, Hash)]
pub struct AyahRef {
    surah: SurahNumber,
    ayah: AyahNumber,
}

impl View for AyahRef {
    type V = (u16, u16);

    closed spec fn view(&self) -> (u16, u16) {
        (self.surah@, self.ayah@)
    }
}

impl AyahRef {
    pub fn new(surah: SurahNumber, ayah: AyahNumber) -> (r: Self)
        ensures
            r@ == (surah@, ayah@),
    {
        AyahRef { surah, ayah }
    }

    pub fn surah(self) -> (r: SurahNumber)
        ensures
            r@ == self@.0,
    {
        self.surah
    }

    pub fn ayah(self) -> (r: AyahNumber)
        ensures
            r@ == self@.1,
    {
        self.ayah
    }

    /// `surah:ayah`, as the position is shown to readers.
    pub fn label(self) -> (r: String)
        ensures
            r@ == decimal(self@.0 as nat) + ":"@ + decimal(self@.1 as nat),
    {
        let mut s = String::new();
        push_decimal(&mut s, self.surah.value() as u64);
        append_str(&mut s, ":");
        push_decimal(&mut s, self.ayah.value() as u64);
        s
    }
}

// ---------------------------------------------------------------------------
// Qari ids and language tags
// ---------------------------------------------------------------------------

/// The canonical qari id that an already trimmed and lower-cased alias names.
pub open spec fn qari_alias(s: Seq<char>) -> Option<Seq<char>> {
    if s == "01"@ || s == "1"@ || s == "abdullah"@ || s == "juhany"@ {
        Some("01"@)
    } else if s == "02"@ || s == "2"@ || s == "qasim"@ || s == "abdulmuhsin"@ {
        Some("02"@)
    } else if s == "03"@ || s == "3"@ || s == "sudais"@ || s == "abdurrahman"@ {
        Some("03"@)
    } else if s == "04"@ || s == "4"@ || s == "dossari"@ || s == "ibrahim"@ {
        Some("04"@)
    } else if s == "05"@ || s == "5"@ || s == "afasy"@ || s == "misyari"@ {
        Some("05"@)
    } else if s == "06"@ || s == "6"@ || s == "yasser"@ || s == "dosari"@ {
        Some("06"@)
    } else {
        None
    }
}

/// The canonical qari id that user input names, ignoring surrounding
/// whitespace and ASCII case.
pub open spec fn normalized_qari(input: Seq<char>) -> Option<Seq<char>> {
    qari_alias(ascii_lower(trim(input)))
}

fn is_one_of(s: &str, a: &str, b: &str, c: &str, d: &str) -> (r: bool)
    ensures
        r == (s@ == a@ || s@ == b@ || s@ == c@ || s@ == d@),
{
    str_eq(s, a) || str_eq(s, b) || str_eq(s, c) || str_eq(s, d)
}

/// The canonical id (`"01"`..`"06"`) of a qari given by number or by name.
pub fn normalize_qari_id(input: &str) -> (r: Option<&'static str>)
    ensures
        match r {
            Some(id) => normalized_qari(input@) == Some(id@),
            None => normalized_qari(input@) is None,
        },
{
    let lowered = ascii_lowercase(trim_str(input));
    let s = lowered.as_str();
    if is_one_of(s, "01", "1", "abdullah", "juhany") {
        Some("01")
    } else if is_one_of(s, "02", "2", "qasim", "abdulmuhsin") {
        Some("02")
    } else if is_one_of(s, "03", "3", "sudais", "abdurrahman") {
        Some("03")
    } else if is_one_of(s, "04", "4", "dossari", "ibrahim") {
        Some("04")
    } else if is_one_of(s, "05", "5", "afasy", "misyari") {
        Some("05")
    } else if is_one_of(s, "06", "6", "yasser", "dosari") {
        Some("06")
    } else {
        None
    }
}

/// A qari id in canonical form.
#[derive(Debug, Clone, PartialEq, Eq, Hash)]
pub struct QariId(String);

impl View for QariId {
    type V = Seq<char>;

    closed spec fn view(&self) -> Seq<char> {
        self.0@
    }
}

impl QariId {
    pub fn new(value: &str) -> (r: Result<Self, DomainError>)
        ensures
            r is Ok <==> normalized_qari(value@) is Some,
            r matches Ok(q) ==> Some(q@) == normalized_qari(value@),
            r matches Err(e) ==> e matches DomainError::InvalidQari(s) && s@ == trim(value@),
    {
        match normalize_qari_id(value) {
            Some(canonical) => Ok(QariId(string_of(canonical))),
            None => Err(DomainError::InvalidQari(string_of(trim_str(value)))),
        }
    }

    pub fn as_str(&self) -> (r: &str)
        ensures
            r@ == self@,
    {
        self.0.as_str()
    }

    pub fn duplicate(&self) -> (r: Self)
        ensures
            r@ == self@,
    {
        QariId(self.0.clone())
    }
}

pub open spec fn is_tag_char(c: char) -> bool {
    is_ascii_alpha(c) || c == '-'
}

/// The outcome of validating a language tag: the trimmed input must be
/// non-empty and made of ASCII letters and `-`; it is kept in lower case.
pub open spec fn language_tag_result(value: Seq<char>) -> Result<Seq<char>, DomainError> {
    let t = trim(value);
    if t.len() == 0 {
        Err(DomainError::EmptyLanguageTag)
    } else if !(forall|i: int| 0 <= i < t.len() ==> is_tag_char(#[trigger] t[i])) {
        Err(DomainError::InvalidLanguageTag(arbitrary()))
    } else {
        Ok(ascii_lower(t))
    }
}

/// A translation language, such as `id`.
#[derive(Debug, Clone, PartialEq, Eq, Hash)]
pub struct LanguageTag(String);

impl View for LanguageTag {
    type V = Seq<char>;

    closed spec fn view(&self) -> Seq<char> {
        self.0@
    }
}

impl LanguageTag {
    pub fn new(value: &str) -> (r: Result<Self, DomainError>)
        ensures
            r is Ok <==> language_tag_result(value@) is Ok,
            r matches Ok(t) ==> Ok::<Seq<char>, DomainError>(t@) == language_tag_result(value@),
            language_tag_result(value@) == Err::<Seq<char>, DomainError>(
                DomainError::EmptyLanguageTag,
            ) ==> r == Err::<Self, DomainError>(DomainError::EmptyLanguageTag),
            r matches Err(DomainError::InvalidLanguageTag(s)) ==> s@ == trim(value@) && trim(
                value@,
            ).len() > 0,
            r matches Err(e) ==> e == DomainError::EmptyLanguageTag || e is InvalidLanguageTag,
            r == Err::<Self, DomainError>(DomainError::EmptyLanguageTag) <==> trim(value@).len()
                == 0,
            (trim(value@).len() > 0 && r is Err) ==> (r matches Err(
                DomainError::InvalidLanguageTag(s),
            ) && s@ == trim(value@)),
    {
        let normalized = trim_str(value);
        let n = normalized.unicode_len();
        if n == 0 {
            return Err(DomainError::EmptyLanguageTag);
        }
        let mut i: usize = 0;
        while i < n
            invariant
                n == normalized@.len(),
                n > 0,
                normalized@ == trim(value@),
                i <= n,
                forall|k: int| 0 <= k < i ==> is_tag_char(#[trigger] normalized@[k]),
            decreases n - i,
        {
            let c = normalized.get_char(i);
            let ok = ('A' <= c && c <= 'Z') || ('a' <= c && c <= 'z') || c == '-';
            if !ok {
                assert(!is_tag_char(normalized@[i as int]));
                return Err(DomainError::InvalidLanguageTag(string_of(normalized)));
            }
            i = i + 1;
        }
        Ok(LanguageTag(ascii_lowercase(normalized)))
    }

    pub fn as_str(&self) -> (r: &str)
        ensures
            r@ == self@,
    {
        self.0.as_str()
    }

    pub fn duplicate(&self) -> (r: Self)
        ensures
            r@ == self@,
    {
        LanguageTag(self.0.clone())
    }
}

// ---------------------------------------------------------------------------
// Records
// ---------------------------------------------------------------------------

pub open spec fn opt_view(o: Option<String>) -> Option<Seq<char>> {
    match o {
        Some(s) => Some(s@),
        None => None,
    }
}

pub fn clone_opt(o: &Option<String>) -> (r: Option<String>)
    ensures
        opt_view(r) == opt_view(*o),
{
    match o {
        Some(s) => Some(s.clone()),
        None => None,
    }
}

pub struct SurahMetaView {
    pub surah_no: u16,
    pub name_ar: Seq<char>,
    pub name_id: Seq<char>,
    pub ayah_count: u16,
    pub audio_full: Option<Seq<char>>,
    pub audio_full_urls: Seq<(Seq<char>, Seq<char>)>,
}

/// What the catalogue says of one surah.
#[derive(Debug, Clone)]
pub struct SurahMeta {
    pub surah_no: u16,
    pub name_ar: String,
    pub name_id: String,
    pub ayah_count: u16,
    pub audio_full: Option<String>,
    pub audio_full_urls: QariUrls,
}

impl View for SurahMeta {
    type V = SurahMetaView;

    open spec fn view(&self) -> SurahMetaView {
        SurahMetaView {
            surah_no: self.surah_no,
            name_ar: self.name_ar@,
            name_id: self.name_id@,
            ayah_count: self.ayah_count,
            audio_full: opt_view(self.audio_full),
            audio_full_urls: self.audio_full_urls@,
        }
    }
}

pub struct AyahView {
    pub surah_no: u16,
    pub ayah_no: u16,
    pub arabic_text: Seq<char>,
    pub transliteration: Option<Seq<char>>,
    pub translation: Option<Seq<char>>,
    pub audio_url: Option<Seq<char>>,
    pub audio_urls: Seq<(Seq<char>, Seq<char>)>,
}

/// One ayah with its text, translation and recitation URLs.
#[derive(Debug, Clone)]
pub struct Ayah {
    pub surah_no: u16,
    pub ayah_no: u16,
    pub arabic_text: String,
    pub transliteration: Option<String>,
    pub translation: Option<String>,
    pub audio_url: Option<String>,
    pub audio_urls: QariUrls,
}

impl View for Ayah {
    type V = AyahView;

    open spec fn view(&self) -> AyahView {
        AyahView {
            surah_no: self.surah_no,
            ayah_no: self.ayah_no,
            arabic_text: self.arabic_text@,
            transliteration: opt_view(self.transliteration),
            translation: opt_view(self.translation),
            audio_url: opt_view(self.audio_url),
            audio_urls: self.audio_urls@,
        }
    }
}

/// One search result.
#[derive(Debug, Clone)]
pub struct SearchHit {
    pub surah_no: u16,
    pub ayah_no: u16,
    pub snippet: String,
}

/// A stored bookmark.
#[derive(Debug, Clone)]
pub struct Bookmark {
    pub id: i64,
    pub surah_no: u16,
    pub ayah_no: u16,
    pub note: Option<String>,
    pub created_at: String,
}

pub struct SearchHitView {
    pub surah_no: u16,
    pub ayah_no: u16,
    pub snippet: Seq<char>,
}

impl View for SearchHit {
    type V = SearchHitView;

    open spec fn view(&self) -> SearchHitView {
        SearchHitView { surah_no: self.surah_no, ayah_no: self.ayah_no, snippet: self.snippet@ }
    }
}

pub struct BookmarkView {
    pub id: i64,
    pub surah_no: u16,
    pub ayah_no: u16,
    pub note: Option<Seq<char>>,
    pub created_at: Seq<char>,
}

impl View for Bookmark {
    type V = BookmarkView;

    open spec fn view(&self) -> BookmarkView {
        BookmarkView {
            id: self.id,
            surah_no: self.surah_no,
            ayah_no: self.ayah_no,
            note: opt_view(self.note),
            created_at: self.created_at@,
        }
    }
}

/// The last position read.
#[derive(Debug, Clone, Copy, PartialEq, Eq, Structural)]
pub struct StudyProgress {
    pub last_surah_no: u16,
    pub last_ayah_no: u16,
}

impl SurahMeta {
    pub fn duplicate(&self) -> (r: Self)
        ensures
            r@ == self@,
    {
        SurahMeta {
            surah_no: self.surah_no,
            name_ar: self.name_ar.clone(),
            name_id: self.name_id.clone(),
            ayah_count: self.ayah_count,
            audio_full: clone_opt(&self.audio_full),
            audio_full_urls: self.audio_full_urls.duplicate(),
        }
    }

    /// The full-surah recitation URL for the chosen qari, else the fallback
    /// qari, else the first qari listed, else the default URL.
    pub fn resolve_audio_full_url(&self, selected_qari: Option<&str>, fallback_qari: &str) -> (r:
        Option<String>)
        ensures
            opt_view(r) == resolved_url(
                self.audio_full_urls@,
                str_opt_view(selected_qari),
                Some(fallback_qari@),
                opt_view(self.audio_full),
            ),
    {
        let default_url: Option<&str> = match &self.audio_full {
            Some(s) => Some(s.as_str()),
            None => None,
        };
        resolve_qari_url(&self.audio_full_urls, selected_qari, Some(fallback_qari), default_url)
    }
}

impl Ayah {
    pub fn duplicate(&self) -> (r: Self)
        ensures
            r@ == self@,
    {
        Ayah {
            surah_no: self.surah_no,
            ayah_no: self.ayah_no,
            arabic_text: self.arabic_text.clone(),
            transliteration: clone_opt(&self.transliteration),
            translation: clone_opt(&self.translation),
            audio_url: clone_opt(&self.audio_url),
            audio_urls: self.audio_urls.duplicate(),
        }
    }

    /// The recitation URL of this ayah for the chosen qari, else the fallback
    /// qari, else the first qari listed, else the default URL.
    pub fn resolve_audio_url(&self, selected_qari: Option<&str>, fallback_qari: &str) -> (r: Option<
        String,
    >)
        ensures
            opt_view(r) == resolved_url(
                self.audio_urls@,
                str_opt_view(selected_qari),
                Some(fallback_qari@),
                opt_view(self.audio_url),
            ),
    {
        let default_url: Option<&str> = match &self.audio_url {
            Some(s) => Some(s.as_str()),
            None => None,
        };
        resolve_qari_url(&self.audio_urls, selected_qari, Some(fallback_qari), default_url)
    }
}

pub open spec fn str_opt_view(o: Option<&str>) -> Option<Seq<char>> {
    match o {
        Some(s) => Some(s@),
        None => None,
    }
}

/// The URL chosen from a qari map: the selected qari's entry, else the
/// fallback qari's, else the entry under the smallest key, else the default.
pub open spec fn resolved_url(
    urls: Seq<(Seq<char>, Seq<char>)>,
    selected: Option<Seq<char>>,
    fallback: Option<Seq<char>>,
    default_url: Option<Seq<char>>,
) -> Option<Seq<char>> {
    if selected is Some && lookup(urls, selected->0) is Some {
        lookup(urls, selected->0)
    } else if fallback is Some && lookup(urls, fallback->0) is Some {
        lookup(urls, fallback->0)
    } else if urls.len() > 0 {
        Some(urls[0].1)
    } else {
        default_url
    }
}

pub fn resolve_qari_url(
    urls: &QariUrls,
    selected_qari: Option<&str>,
    fallback_qari: Option<&str>,
    default_url: Option<&str>,
) -> (r: Option<String>)
    ensures
        opt_view(r) == resolved_url(
            urls@,
            str_opt_view(selected_qari),
            str_opt_view(fallback_qari),
            str_opt_view(default_url),
        ),
{
    if let Some(qari) = selected_qari {
        if let Some(url) = urls.get(qari) {
            return Some(url.clone());
        }
    }
    if let Some(qari) = fallback_qari {
        if let Some(url) = urls.get(qari) {
            return Some(url.clone());
        }
    }
    if let Some(url) = urls.first_value() {
        return Some(url.clone());
    }
    match default_url {
        Some(u) => Some(string_of(u)),
        None => None,
    }
}


// ---------------------------------------------------------------------------
// Conversions of the checked numbers
// ---------------------------------------------------------------------------

/// The plain value of a surah number.
impl From<SurahNumber> for u16 {
    fn from(value: SurahNumber) -> (r: u16) {
        value.value()
    }
}

impl vstd::std_specs::convert::FromSpecImpl<SurahNumber> for u16 {
    open spec fn obeys_from_spec() -> bool {
        true
    }

    open spec fn from_spec(v: SurahNumber) -> u16 {
        v@
    }
}

/// A surah number from a plain value, checked as `SurahNumber::new` checks it.
impl TryFrom<u16> for SurahNumber {
    type Error = DomainError;

    fn try_from(value: u16) -> (r: Result<SurahNumber, DomainError>) {
        SurahNumber::new(value)
    }
}

impl vstd::std_specs::convert::TryFromSpecImpl<u16> for SurahNumber {
    open spec fn obeys_try_from_spec() -> bool {
        true
    }

    closed spec fn try_from_spec(v: u16) -> Result<SurahNumber, DomainError> {
        if 1 <= v <= 114 {
            Ok(SurahNumber(v))
        } else {
            Err(DomainError::InvalidSurah(v))
        }
    }
}

/// The plain value of a ayah number.
impl From<AyahNumber> for u16 {
    fn from(value: AyahNumber) -> (r: u16) {
        value.value()
    }
}

impl vstd::std_specs::convert::FromSpecImpl<AyahNumber> for u16 {
    open spec fn obeys_from_spec() -> bool {
        true
    }

    open spec fn from_spec(v: AyahNumber) -> u16 {
        v@
    }
}

/// A ayah number from a plain value, checked as `AyahNumber::new` checks it.
impl TryFrom<u16> for AyahNumber {
    type Error = DomainError;

    fn try_from(value: u16) -> (r: Result<AyahNumber, DomainError>) {
        AyahNumber::new(value)
    }
}

impl vstd::std_specs::convert::TryFromSpecImpl<u16> for AyahNumber {
    open spec fn obeys_try_from_spec() -> bool {
        true
    }

    closed spec fn try_from_spec(v: u16) -> Result<AyahNumber, DomainError> {
        if 1 <= v <= 286 {
            Ok(AyahNumber(v))
        } else {
            Err(DomainError::InvalidAyah(v))
        }
    }
}

/// The plain value of a bookmark id.
impl From<BookmarkId> for i64 {
    fn from(value: BookmarkId) -> (r: i64) {
        value.value()
    }
}

impl vstd::std_specs::convert::FromSpecImpl<BookmarkId> for i64 {
    open spec fn obeys_from_spec() -> bool {
        true
    }

    open spec fn from_spec(v: BookmarkId) -> i64 {
        v@
    }
}

/// A bookmark id from a plain value, checked as `BookmarkId::new` checks it.
impl TryFrom<i64> for BookmarkId {
    type Error = DomainError;

    fn try_from(value: i64) -> (r: Result<BookmarkId, DomainError>) {
        BookmarkId::new(value)
    }
}

impl vstd::std_specs::convert::TryFromSpecImpl<i64> for BookmarkId {
    open spec fn obeys_try_from_spec() -> bool {
        true
    }

    closed spec fn try_from_spec(v: i64) -> Result<BookmarkId, DomainError> {
        if v > 0 {
            Ok(BookmarkId(v))
        } else {
            Err(DomainError::InvalidBookmarkId(v))
        }
    }
}

/// The plain value of a search limit.
impl From<SearchLimit> for u16 {
    fn from(value: SearchLimit) -> (r: u16) {
        value.value()
    }
}

impl vstd::std_specs::convert::FromSpecImpl<SearchLimit> for u16 {
    open spec fn obeys_from_spec() -> bool {
        true
    }

    open spec fn from_spec(v: SearchLimit) -> u16 {
        v@
    }
}

/// A search limit from a plain value, checked as `SearchLimit::new` checks it.
impl TryFrom<u16> for SearchLimit {
    type Error = DomainError;

    fn try_from(value: u16) -> (r: Result<SearchLimit, DomainError>) {
        SearchLimit::new(value)
    }
}

impl vstd::std_specs::convert::TryFromSpecImpl<u16> for SearchLimit {
    open spec fn obeys_try_from_spec() -> bool {
        true
    }

    closed spec fn try_from_spec(v: u16) -> Result<SearchLimit, DomainError> {
        if 1 <= v <= 200 {
            Ok(SearchLimit(v))
        } else {
            Err(DomainError::InvalidSearchLimit(v))
        }
    }
}

/// The plain value of a plan count.
impl From<PlanCount> for usize {
    fn from(value: PlanCount) -> (r: usize) {
        value.value()
    }
}

impl vstd::std_specs::convert::FromSpecImpl<PlanCount> for usize {
    open spec fn obeys_from_spec() -> bool {
        true
    }

    open spec fn from_spec(v: PlanCount) -> usize {
        v@
    }
}

/// A plan count from a plain value, checked as `PlanCount::new` checks it.
impl TryFrom<usize> for PlanCount {
    type Error = DomainError;

    fn try_from(value: usize) -> (r: Result<PlanCount, DomainError>) {
        PlanCount::new(value)
    }
}

impl vstd::std_specs::convert::TryFromSpecImpl<usize> for PlanCount {
    open spec fn obeys_try_from_spec() -> bool {
        true
    }

    closed spec fn try_from_spec(v: usize) -> Result<PlanCount, DomainError> {
        if 1 <= v <= 1000 {
            Ok(PlanCount(v))
        } else {
            Err(DomainError::InvalidPlanCount(v))
        }
    }
}

} // verus!
