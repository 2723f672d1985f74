//! The content API's answers and what the reader takes from them: the
//! surah list, the ayahs of a surah with their recitation URLs, and search
//! hits. The answers arrive as JSON values; fetching them is the caller's
//! part.
use vstd::prelude::*;
use vstd::string::*;

use crate::domain::{
    resolve_qari_url, resolved_url, Ayah, AyahView, SearchHit, SearchHitView, SurahMeta,
    SurahMetaView, SurahNumber,
};
use crate::ports::RepoError;
use crate::qari_urls::{keys_ascending, lookup, QariUrls};
use crate::text::{append_str, decimal, push_decimal, string_of, trim, trim_str};

verus! {

/// A JSON value. Of a number the parsing keeps whether it is a whole number
/// that is not negative (and its value), a negative whole number, or another
/// number.
#[derive(Debug)]
pub enum Json {
    Null,
    Bool(bool),
    PosInt(u64),
    NegInt(i64),
    OtherNumber,
    Str(String),
    Array(Vec<Json>),
    Object(Vec<(String, Json)>),
}

/// The value under `key` among an object's entries, from entry `i` on.
pub open spec fn entry_value(es: Seq<(String, Json)>, key: Seq<char>, i: int) -> Option<Json>
    decreases es.len() - i,
{
    if i < 0 || i >= es.len() {
        None
    } else if es[i].0@ == key {
        Some(es[i].1)
    } else {
        entry_value(es, key, i + 1)
    }
}

/// `value.get(key)`: the member of an object.
pub open spec fn json_get(j: Json, key: Seq<char>) -> Option<Json> {
    match j {
        Json::Object(es) => entry_value(es@, key, 0),
        _ => None,
    }
}

/// `as_u64`: a whole number that is not negative.
pub open spec fn json_u64(j: Option<Json>) -> Option<u64> {
    match j {
        Some(Json::PosInt(n)) => Some(n),
        _ => None,
    }
}

/// `as_str`: a string.
pub open spec fn json_str(j: Option<Json>) -> Option<Seq<char>> {
    match j {
        Some(Json::Str(s)) => Some(s@),
        _ => None,
    }
}

/// `as_array`: an array.
pub open spec fn json_array(j: Option<Json>) -> Option<Seq<Json>> {
    match j {
        Some(Json::Array(v)) => Some(v@),
        _ => None,
    }
}

/// A string member, or the empty string.
pub open spec fn str_or_empty(j: Option<Json>) -> Seq<char> {
    match json_str(j) {
        Some(s) => s,
        None => seq![],
    }
}

fn get<'a>(j: &'a Json, key: &str) -> (r: Option<&'a Json>)
    ensures
        match r {
            Some(v) => json_get(*j, key@) == Some(*v),
            None => json_get(*j, key@) is None,
        },
{
    match j {
        Json::Object(es) => {
            let n = es.len();
            let mut i: usize = 0;
            while i < n
                invariant
                    n == es@.len(),
                    i <= n,
                    json_get(*j, key@) == entry_value(es@, key@, 0),
                    entry_value(es@, key@, 0) == entry_value(es@, key@, i as int),
                decreases n - i,
            {
                if crate::text::str_eq(es[i].0.as_str(), key) {
                    assert(es@[i as int].0@ == key@);
                    assert(entry_value(es@, key@, i as int) == Some(es@[i as int].1));
                    assert(json_get(*j, key@) == entry_value(es@, key@, 0));
                    let r = &es[i].1;
                    assert(*r == es@[i as int].1);
                    return Some(r);
                }
                i = i + 1;
            }
            None
        },
        _ => None,
    }
}

fn as_u64(j: Option<&Json>) -> (r: Option<u64>)
    ensures
        r == json_u64(opt_ref(j)),
{
    match j {
        Some(Json::PosInt(n)) => Some(*n),
        _ => None,
    }
}

fn as_str(j: Option<&Json>) -> (r: Option<&str>)
    ensures
        match r {
            Some(s) => json_str(opt_ref(j)) == Some(s@),
            None => json_str(opt_ref(j)) is None,
        },
{
    match j {
        Some(Json::Str(s)) => Some(s.as_str()),
        _ => None,
    }
}

fn as_array(j: Option<&Json>) -> (r: Option<&Vec<Json>>)
    ensures
        match r {
            Some(v) => json_array(opt_ref(j)) == Some(v@),
            None => json_array(opt_ref(j)) is None,
        },
{
    match j {
        Some(Json::Array(v)) => Some(v),
        _ => None,
    }
}

pub open spec fn opt_ref(j: Option<&Json>) -> Option<Json> {
    match j {
        Some(v) => Some(*v),
        None => None,
    }
}

// ---------------------------------------------------------------------------
// Recitation URLs
// ---------------------------------------------------------------------------

/// The URL of an entry of an audio object: its trimmed text, unless blank.
pub open spec fn audio_entry_url(v: Json) -> Option<Seq<char>> {
    match v {
        Json::Str(s) => if trim(s@).len() > 0 {
            Some(trim(s@))
        } else {
            None
        },
        _ => None,
    }
}

/// The URL that the first `n` entries of an audio object give a qari: the
/// last entry of that qari with a URL.
pub open spec fn audio_lookup(es: Seq<(String, Json)>, k: Seq<char>, n: nat) -> Option<Seq<char>>
    decreases n,
{
    if n == 0 || n > es.len() {
        None
    } else if es[n - 1].0@ == k && audio_entry_url(es[n - 1].1) is Some {
        audio_entry_url(es[n - 1].1)
    } else {
        audio_lookup(es, k, (n - 1) as nat)
    }
}

/// The recitation URLs of an audio object, by qari; anything but an object
/// gives none.
pub open spec fn json_audio_lookup(raw: Option<Json>, k: Seq<char>) -> Option<Seq<char>> {
    match raw {
        Some(Json::Object(es)) => audio_lookup(es@, k, es@.len()),
        _ => None,
    }
}

/// A qari map holds exactly the URLs that an audio object gives.
pub open spec fn audio_map_of(raw: Option<Json>, urls: Seq<(Seq<char>, Seq<char>)>) -> bool {
    &&& keys_ascending(urls)
    &&& forall|k: Seq<char>| #[trigger] lookup(urls, k) == json_audio_lookup(raw, k)
}

/// The qari map of an audio object: each qari with a non-blank URL, trimmed.
pub fn audio_map(raw: Option<&Json>) -> (r: QariUrls)
    ensures
        audio_map_of(opt_ref(raw), r@),
{
    let mut urls = QariUrls::new();
    assert(keys_ascending(urls@));
    proof {
        assert forall|k: Seq<char>| #[trigger] lookup(urls@, k) == json_audio_lookup(None, k) by {
        }
    }
    match raw {
        Some(Json::Object(es)) => {
            let n = es.len();
            let mut i: usize = 0;
            while i < n
                invariant
                    n == es@.len(),
                    i <= n,
                    keys_ascending(urls@),
                    forall|k: Seq<char>| #[trigger]
                        lookup(urls@, k) == audio_lookup(es@, k, i as nat),
                decreases n - i,
            {
                match &es[i].1 {
                    Json::Str(s) => {
                        let url = trim_str(s.as_str());
                        if url.unicode_len() > 0 {
                            urls.insert(es[i].0.clone(), string_of(url));
                        }
                    },
                    _ => {},
                }
                assert forall|k: Seq<char>| #[trigger]
                    lookup(urls@, k) == audio_lookup(es@, k, (i + 1) as nat) by {
                }
                i = i + 1;
            }
        },
        _ => {},
    }
    urls
}

// ---------------------------------------------------------------------------
// Ayahs
// ---------------------------------------------------------------------------

/// An ayah object can be read: it has an ayah number that fits 16 bits and
/// an Arabic text.
pub open spec fn ayah_parses(raw: Json) -> bool {
    &&& json_u64(json_get(raw, "nomorAyat"@)) matches Some(n) && n <= u16::MAX
    &&& json_str(json_get(raw, "teksArab"@)) is Some
}

/// The default recitation URL of a qari map: qari 05's, else the first.
pub open spec fn default_audio_url(urls: Seq<(Seq<char>, Seq<char>)>) -> Option<Seq<char>> {
    resolved_url(urls, None, Some("05"@), None)
}

/// The ayah that an ayah object of surah `surah_no` gives.
pub open spec fn ayah_of(raw: Json, surah_no: u16, a: AyahView) -> bool {
    &&& a.surah_no == surah_no
    &&& json_u64(json_get(raw, "nomorAyat"@)) == Some(a.ayah_no as u64)
    &&& json_str(json_get(raw, "teksArab"@)) == Some(a.arabic_text)
    &&& a.transliteration == json_str(json_get(raw, "teksLatin"@))
    &&& a.translation == json_str(json_get(raw, "teksIndonesia"@))
    &&& audio_map_of(json_get(raw, "audio"@), a.audio_urls)
    &&& a.audio_url == default_audio_url(a.audio_urls)
}

fn owned_str(s: Option<&str>) -> (r: Option<String>)
    ensures
        match s {
            Some(x) => r matches Some(y) && y@ == x@,
            None => r is None,
        },
{
    match s {
        Some(x) => Some(string_of(x)),
        None => None,
    }
}

/// The ayah of an ayah object, if it can be read. Translations come from
/// the Indonesian text whatever the language.
pub fn map_ayah(raw: &Json, surah_no: SurahNumber, _lang: &crate::domain::LanguageTag) -> (r: Option<Ayah>)
    ensures
        ayah_parses(*raw) <==> r is Some,
        r matches Some(a) ==> ayah_of(*raw, surah_no@, a@),
{
    let ayah_no = match as_u64(get(raw, "nomorAyat")) {
        Some(n) => {
            if n > 65535 {
                return None;
            }
            n as u16
        },
        None => {
            return None;
        },
    };
    let arabic_text = match as_str(get(raw, "teksArab")) {
        Some(t) => string_of(t),
        None => {
            return None;
        },
    };
    let transliteration = owned_str(as_str(get(raw, "teksLatin")));
    let translation = owned_str(as_str(get(raw, "teksIndonesia")));
    let audio_urls = audio_map(get(raw, "audio"));
    let audio_url = resolve_qari_url(&audio_urls, None, Some("05"), None);
    Some(
        Ayah {
            surah_no: surah_no.value(),
            ayah_no,
            arabic_text,
            transliteration,
            translation,
            audio_url,
            audio_urls,
        },
    )
}

/// The ayah objects among the first `n` that can be read, in order.
pub open spec fn parsing_items(items: Seq<Json>, n: nat) -> Seq<Json>
    decreases n,
{
    if n == 0 || n > items.len() {
        seq![]
    } else {
        let prev = parsing_items(items, (n - 1) as nat);
        if ayah_parses(items[n - 1]) {
            prev.push(items[n - 1])
        } else {
            prev
        }
    }
}

pub open spec fn detail_format_error() -> Seq<char> {
    "format response detail surah v2 tidak valid"@
}

pub open spec fn ayat_format_error() -> Seq<char> {
    "format ayat v2 tidak valid"@
}

/// The ayah objects of a surah detail answer: the array `data.ayat`.
pub open spec fn detail_items(payload: Json) -> Result<Seq<Json>, Seq<char>> {
    match json_get(payload, "data"@) {
        None => Err(detail_format_error()),
        Some(data) => match json_array(json_get(data, "ayat"@)) {
            None => Err(ayat_format_error()),
            Some(items) => Ok(items),
        },
    }
}

fn repo_error(msg: &str) -> (r: RepoError)
    ensures
        r.message@ == msg@,
{
    RepoError { message: string_of(msg) }
}

fn ayat_of<'a>(payload: &'a Json) -> (r: Result<&'a Vec<Json>, RepoError>)
    ensures
        match detail_items(*payload) {
            Ok(items) => r matches Ok(v) && v@ == items,
            Err(m) => r matches Err(e) && e.message@ == m,
        },
{
    let data = match get(payload, "data") {
        Some(d) => d,
        None => {
            return Err(repo_error("format response detail surah v2 tidak valid"));
        },
    };
    match as_array(get(data, "ayat")) {
        Some(v) => Ok(v),
        None => Err(repo_error("format ayat v2 tidak valid")),
    }
}

/// The ayahs of a surah detail answer: every ayah object that can be read,
/// in order.
pub fn surah_ayahs(payload: &Json, surah_no: SurahNumber, lang: &crate::domain::LanguageTag) -> (r:
    Result<Vec<Ayah>, RepoError>)
    ensures
        match detail_items(*payload) {
            Err(m) => r matches Err(e) && e.message@ == m,
            Ok(items) => r matches Ok(v) && v@.len() == parsing_items(items, items.len()).len()
                && forall|i: int|
                0 <= i < v@.len() ==> ayah_of(
                    #[trigger] parsing_items(items, items.len())[i],
                    surah_no@,
                    v@[i]@,
                ),
        },
{
    let items = match ayat_of(payload) {
        Ok(v) => v,
        Err(e) => {
            return Err(e);
        },
    };
    let n = items.len();
    let mut out: Vec<Ayah> = Vec::new();
    let mut i: usize = 0;
    while i < n
        invariant
            n == items@.len(),
            i <= n,
            out@.len() == parsing_items(items@, i as nat).len(),
            forall|k: int|
                0 <= k < out@.len() ==> ayah_of(
                    #[trigger] parsing_items(items@, i as nat)[k],
                    surah_no@,
                    out@[k]@,
                ),
        decreases n - i,
    {
        match map_ayah(&items[i], surah_no, lang) {
            Some(a) => {
                out.push(a);
            },
            None => {},
        }
        assert(forall|k: int|
            0 <= k < parsing_items(items@, i as nat).len() ==> parsing_items(
                items@,
                (i + 1) as nat,
            )[k] == parsing_items(items@, i as nat)[k]);
        i = i + 1;
    }
    Ok(out)
}

/// The first ayah object from `i` on whose number is `n`.
pub open spec fn item_numbered(items: Seq<Json>, n: u64, i: int) -> Option<Json>
    decreases items.len() - i,
{
    if i < 0 || i >= items.len() {
        None
    } else if json_u64(json_get(items[i], "nomorAyat"@)) == Some(n) {
        Some(items[i])
    } else {
        item_numbered(items, n, i + 1)
    }
}

/// One ayah of a surah detail answer: the first ayah object with the wanted
/// number, if there is one and it can be read.
pub fn find_ayah(
    payload: &Json,
    surah_no: SurahNumber,
    ayah_no: u16,
    lang: &crate::domain::LanguageTag,
) -> (r: Result<Option<Ayah>, RepoError>)
    ensures
        match detail_items(*payload) {
            Err(m) => r matches Err(e) && e.message@ == m,
            Ok(items) => r matches Ok(found) && match item_numbered(items, ayah_no as u64, 0) {
                None => found is None,
                Some(item) => (ayah_parses(item) <==> found is Some) && (found matches Some(a)
                    ==> ayah_of(item, surah_no@, a@)),
            },
        },
{
    let items = match ayat_of(payload) {
        Ok(v) => v,
        Err(e) => {
            return Err(e);
        },
    };
    let n = items.len();
    let mut i: usize = 0;
    while i < n
        invariant
            n == items@.len(),
            i <= n,
            detail_items(*payload) == Ok::<Seq<Json>, Seq<char>>(items@),
            item_numbered(items@, ayah_no as u64, 0) == item_numbered(items@, ayah_no as u64, i as int),
        decreases n - i,
    {
        if as_u64(get(&items[i], "nomorAyat")) == Some(ayah_no as u64) {
            return Ok(map_ayah(&items[i], surah_no, lang));
        }
        i = i + 1;
    }
    Ok(None)
}

/// The path of a surah's detail on the content API.
pub fn surah_detail_path(surah: SurahNumber) -> (r: String)
    ensures
        r@ == "/v2/surat/"@ + decimal(surah@ as nat),
{
    let mut s = string_of("/v2/surat/");
    push_decimal(&mut s, surah.value() as u64);
    s
}

// ---------------------------------------------------------------------------
// The surah list
// ---------------------------------------------------------------------------

pub open spec fn list_format_error() -> Seq<char> {
    "format response list surah v2 tidak valid"@
}

/// Why a surah object cannot be read, if it cannot: a missing or negative
/// number or ayah count, or one beyond 16 bits.
pub open spec fn surah_item_error(item: Json) -> Option<Seq<char>> {
    match json_u64(json_get(item, "nomor"@)) {
        None => Some("nomor surah tidak valid"@),
        Some(n) => if n > u16::MAX {
            Some("nomor surah overflow: "@ + decimal(n as nat))
        } else {
            match json_u64(json_get(item, "jumlahAyat"@)) {
                None => Some("jumlahAyat tidak valid"@),
                Some(c) => if c > u16::MAX {
                    Some("jumlahAyat overflow: "@ + decimal(c as nat))
                } else {
                    None
                },
            }
        },
    }
}

/// The surah that a surah object gives; missing names are empty.
pub open spec fn surah_of(item: Json, m: SurahMetaView) -> bool {
    &&& json_u64(json_get(item, "nomor"@)) == Some(m.surah_no as u64)
    &&& m.name_ar == str_or_empty(json_get(item, "nama"@))
    &&& m.name_id == str_or_empty(json_get(item, "namaLatin"@))
    &&& json_u64(json_get(item, "jumlahAyat"@)) == Some(m.ayah_count as u64)
    &&& audio_map_of(json_get(item, "audioFull"@), m.audio_full_urls)
    &&& m.audio_full == default_audio_url(m.audio_full_urls)
}

/// The first error among the surah objects from `i` on.
pub open spec fn first_surah_error(items: Seq<Json>, i: int) -> Option<Seq<char>>
    decreases items.len() - i,
{
    if i < 0 || i >= items.len() {
        None
    } else if surah_item_error(items[i]) is Some {
        surah_item_error(items[i])
    } else {
        first_surah_error(items, i + 1)
    }
}

fn overflow_error(prefix: &str, n: u64) -> (r: RepoError)
    ensures
        r.message@ == prefix@ + decimal(n as nat),
{
    let mut s = string_of(prefix);
    push_decimal(&mut s, n);
    RepoError { message: s }
}

fn str_member(j: &Json, key: &str) -> (r: String)
    ensures
        r@ == str_or_empty(json_get(*j, key@)),
{
    match as_str(get(j, key)) {
        Some(s) => string_of(s),
        None => String::new(),
    }
}

fn map_surah(item: &Json) -> (r: Result<SurahMeta, RepoError>)
    ensures
        match surah_item_error(*item) {
            Some(m) => r matches Err(e) && e.message@ == m,
            None => r matches Ok(s) && surah_of(*item, s@),
        },
{
    let surah_no = match as_u64(get(item, "nomor")) {
        None => {
            return Err(repo_error("nomor surah tidak valid"));
        },
        Some(n) => {
            if n > 65535 {
                return Err(overflow_error("nomor surah overflow: ", n));
            }
            n as u16
        },
    };
    let name_ar = str_member(item, "nama");
    let name_id = str_member(item, "namaLatin");
    let ayah_count = match as_u64(get(item, "jumlahAyat")) {
        None => {
            return Err(repo_error("jumlahAyat tidak valid"));
        },
        Some(c) => {
            if c > 65535 {
                return Err(overflow_error("jumlahAyat overflow: ", c));
            }
            c as u16
        },
    };
    let audio_full_urls = audio_map(get(item, "audioFull"));
    let audio_full = resolve_qari_url(&audio_full_urls, None, Some("05"), None);
    Ok(SurahMeta { surah_no, name_ar, name_id, ayah_count, audio_full, audio_full_urls })
}

/// The surah objects of a list answer: the array `data`.
pub open spec fn list_items(payload: Json) -> Option<Seq<Json>> {
    json_array(json_get(payload, "data"@))
}

/// The surah list of a list answer: every surah object in order, or the
/// error of the first that cannot be read.
pub fn surah_list(payload: &Json) -> (r: Result<Vec<SurahMeta>, RepoError>)
    ensures
        match list_items(*payload) {
            None => r matches Err(e) && e.message@ == list_format_error(),
            Some(items) => match first_surah_error(items, 0) {
                Some(m) => r matches Err(e) && e.message@ == m,
                None => r matches Ok(v) && v@.len() == items.len() && forall|i: int|
                    0 <= i < items.len() ==> surah_of(#[trigger] items[i], v@[i]@),
            },
        },
{
    let items = match as_array(get(payload, "data")) {
        Some(v) => v,
        None => {
            return Err(repo_error("format response list surah v2 tidak valid"));
        },
    };
    let n = items.len();
    let mut out: Vec<SurahMeta> = Vec::new();
    let mut i: usize = 0;
    while i < n
        invariant
            n == items@.len(),
            i <= n,
            list_items(*payload) == Some(items@),
            out@.len() == i,
            first_surah_error(items@, 0) == first_surah_error(items@, i as int),
            forall|k: int| 0 <= k < i ==> surah_of(#[trigger] items@[k], out@[k]@),
        decreases n - i,
    {
        match map_surah(&items[i]) {
            Ok(m) => {
                out.push(m);
            },
            Err(e) => {
                return Err(e);
            },
        }
        i = i + 1;
    }
    Ok(out)
}

// ---------------------------------------------------------------------------
// Search
// ---------------------------------------------------------------------------

pub open spec fn search_format_error() -> Seq<char> {
    "format response vector search tidak valid"@
}

/// A 16-bit whole number member.
pub open spec fn u16_member(j: Json, key: Seq<char>) -> Option<u16> {
    match json_u64(json_get(j, key)) {
        Some(n) => if n <= u16::MAX {
            Some(n as u16)
        } else {
            None
        },
        None => None,
    }
}

/// The hit that a search result gives: its surah and ayah, and the Arabic
/// text when only the Qur'an text is searched, else the translation; a
/// result without them, or with an empty snippet, gives none.
pub open spec fn hit_of(item: Json, quran_only: bool) -> Option<SearchHitView> {
    match json_get(item, "data"@) {
        None => None,
        Some(data) => match (u16_member(data, "id_surat"@), u16_member(data, "nomor_ayat"@)) {
            (Some(s), Some(a)) => {
                let snippet = if quran_only {
                    str_or_empty(json_get(data, "teks_arab"@))
                } else {
                    str_or_empty(json_get(data, "terjemahan_id"@))
                };
                if snippet.len() > 0 {
                    Some(SearchHitView { surah_no: s, ayah_no: a, snippet })
                } else {
                    None
                }
            },
            _ => None,
        },
    }
}

/// The hits of the first `n` results, in order.
pub open spec fn hits_of(items: Seq<Json>, quran_only: bool, n: nat) -> Seq<SearchHitView>
    decreases n,
{
    if n == 0 || n > items.len() {
        seq![]
    } else {
        let prev = hits_of(items, quran_only, (n - 1) as nat);
        match hit_of(items[n - 1], quran_only) {
            Some(h) => prev.push(h),
            None => prev,
        }
    }
}

pub open spec fn at_most(s: Seq<SearchHitView>, n: nat) -> Seq<SearchHitView> {
    if s.len() <= n {
        s
    } else {
        s.subrange(0, n as int)
    }
}

proof fn lemma_hits_of_grow(items: Seq<Json>, quran_only: bool, n: nat)
    requires
        n < items.len(),
    ensures
        hits_of(items, quran_only, n).len() <= hits_of(items, quran_only, n + 1).len(),
        forall|k: int|
            0 <= k < hits_of(items, quran_only, n).len() ==> hits_of(items, quran_only, n + 1)[k]
                == hits_of(items, quran_only, n)[k],
{
}

proof fn lemma_hits_of_prefix(items: Seq<Json>, quran_only: bool, m: nat, n: nat)
    requires
        m <= n <= items.len(),
    ensures
        hits_of(items, quran_only, m).len() <= hits_of(items, quran_only, n).len(),
        forall|k: int|
            0 <= k < hits_of(items, quran_only, m).len() ==> hits_of(items, quran_only, n)[k]
                == hits_of(items, quran_only, m)[k],
    decreases n - m,
{
    if m < n {
        lemma_hits_of_prefix(items, quran_only, m, (n - 1) as nat);
        lemma_hits_of_grow(items, quran_only, (n - 1) as nat);
    }
}

fn map_hit(item: &Json, quran_only: bool) -> (r: Option<SearchHit>)
    ensures
        match hit_of(*item, quran_only) {
            None => r is None,
            Some(h) => r matches Some(x) && x@ == h,
        },
{
    let data = match get(item, "data") {
        Some(d) => d,
        None => {
            return None;
        },
    };
    let surah_no = match as_u64(get(data, "id_surat")) {
        Some(n) => {
            if n > 65535 {
                return None;
            }
            n as u16
        },
        None => {
            return None;
        },
    };
    let ayah_no = match as_u64(get(data, "nomor_ayat")) {
        Some(n) => {
            if n > 65535 {
                return None;
            }
            n as u16
        },
        None => {
            return None;
        },
    };
    let snippet = if quran_only {
        str_member(data, "teks_arab")
    } else {
        str_member(data, "terjemahan_id")
    };
    if snippet.as_str().unicode_len() == 0 {
        return None;
    }
    Some(SearchHit { surah_no, ayah_no, snippet })
}

/// The hits of a search answer: the results in order that name a surah and
/// ayah and have a snippet, at most `limit` of them.
pub fn search_hits(
    payload: &Json,
    search_quran: bool,
    search_translation: bool,
    limit: crate::domain::SearchLimit,
) -> (r: Result<Vec<SearchHit>, RepoError>)
    ensures
        match json_array(json_get(*payload, "hasil"@)) {
            None => r matches Err(e) && e.message@ == search_format_error(),
            Some(items) => r matches Ok(v) && crate::tui::hits_view(v@) == at_most(
                hits_of(items, search_quran && !search_translation, items.len()),
                limit@ as nat,
            ),
        },
{
    let items = match as_array(get(payload, "hasil")) {
        Some(v) => v,
        None => {
            return Err(repo_error("format response vector search tidak valid"));
        },
    };
    let quran_only = search_quran && !search_translation;
    let max = limit.value() as usize;
    let n = items.len();
    let mut out: Vec<SearchHit> = Vec::new();
    let mut i: usize = 0;
    while i < n && out.len() < max
        invariant
            n == items@.len(),
            i <= n,
            out@.len() <= max,
            crate::tui::hits_view(out@) == hits_of(items@, quran_only, i as nat),
        decreases n - i,
    {
        match map_hit(&items[i], quran_only) {
            Some(h) => {
                out.push(h);
            },
            None => {},
        }
        assert(crate::tui::hits_view(out@) =~= hits_of(items@, quran_only, (i + 1) as nat));
        i = i + 1;
    }
    proof {
        let all = hits_of(items@, quran_only, n as nat);
        lemma_hits_of_prefix(items@, quran_only, i as nat, n as nat);
        if i < n {
            assert(out@.len() == max);
            assert(crate::tui::hits_view(out@) =~= all.subrange(0, max as int));
        } else {
            assert(all.len() <= max);
        }
    }
    Ok(out)
}

/// The body of a search request: the query, the limit, and the kind of
/// result wanted (ayahs).
pub open spec fn search_request_of(query: Seq<char>, limit: u16, j: Json) -> bool {
    &&& json_str(json_get(j, "cari"@)) == Some(query)
    &&& json_u64(json_get(j, "batas"@)) == Some(limit as u64)
    &&& json_array(json_get(j, "tipe"@)) matches Some(t) && t.len() == 1 && json_str(Some(t[0]))
        == Some("ayat"@)
}

pub fn search_request(query: &str, limit: crate::domain::SearchLimit) -> (r: Json)
    ensures
        search_request_of(query@, limit@, r),
{
    let mut kinds: Vec<Json> = Vec::new();
    kinds.push(Json::Str(string_of("ayat")));
    let mut entries: Vec<(String, Json)> = Vec::new();
    entries.push((string_of("cari"), Json::Str(string_of(query))));
    entries.push((string_of("batas"), Json::PosInt(limit.value() as u64)));
    entries.push((string_of("tipe"), Json::Array(kinds)));
    proof {
        reveal_strlit("cari");
        reveal_strlit("batas");
        reveal_strlit("tipe");
    }
    let r = Json::Object(entries);
    assert("cari"@[0] != "tipe"@[0]);
    assert("batas"@[0] != "tipe"@[0]);
    assert(entry_value(entries@, "cari"@, 0) == Some(entries@[0].1));
    assert(entry_value(entries@, "batas"@, 1) == Some(entries@[1].1));
    assert(entry_value(entries@, "batas"@, 0) == Some(entries@[1].1));
    assert(entry_value(entries@, "tipe"@, 2) == Some(entries@[2].1));
    assert(entry_value(entries@, "tipe"@, 1) == Some(entries@[2].1));
    assert(entry_value(entries@, "tipe"@, 0) == Some(entries@[2].1));
    r
}

} // verus!
