//! The decisions of the command-line commands that do not touch the
//! terminal: checking arguments, what each table shows, and the messages.
use vstd::prelude::*;
use vstd::string::*;

use crate::cli;
use crate::domain::{
    AyahNumber, AyahRef, AyahView, BookmarkView, DomainError, LanguageTag, SearchHitView,
    SurahNumber, language_tag_result,
};
use crate::dto::{ReadInput, ReadTarget, SearchScope, SyncStatus};
use crate::text::{append_str, decimal, push_decimal, push_signed_decimal, signed_decimal, string_of, str_eq, trim, trim_str};
use crate::tui::{bookmarks_view, hits_view};
use crate::audio::ayahs_view;

verus! {

// ---------------------------------------------------------------------------
// Arguments
// ---------------------------------------------------------------------------

/// The target that `--surah` and an optional `--ayah` name.
pub fn build_read_target(surah: u16, ayah: Option<u16>) -> (r: Result<ReadTarget, DomainError>)
    ensures
        (1 <= surah <= 114 && (ayah matches Some(a) ==> 1 <= a <= 286)) <==> r is Ok,
        r matches Ok(ReadTarget::Surah(s)) ==> ayah is None && s@ == surah,
        r matches Ok(ReadTarget::Ayah(p)) ==> ayah == Some(p@.1) && p@.0 == surah,
        !(1 <= surah <= 114) ==> r == Err::<ReadTarget, DomainError>(DomainError::InvalidSurah(surah)),
        (1 <= surah <= 114 && ayah is Some && !(1 <= ayah->0 <= 286)) ==> r == Err::<
            ReadTarget,
            DomainError,
        >(DomainError::InvalidAyah(ayah->0)),
{
    let s = match SurahNumber::new(surah) {
        Ok(s) => s,
        Err(e) => {
            return Err(e);
        },
    };
    match ayah {
        None => Ok(ReadTarget::Surah(s)),
        Some(value) => match AyahNumber::new(value) {
            Ok(a) => Ok(ReadTarget::Ayah(AyahRef::new(s, a))),
            Err(e) => Err(e),
        },
    }
}

/// The input of `read`: the target and the translation language.
pub fn build_read_input(surah: u16, ayah: Option<u16>, lang: &str) -> (r: Result<
    ReadInput,
    DomainError,
>)
    ensures
        r is Ok <==> ((1 <= surah <= 114 && (ayah matches Some(a) ==> 1 <= a <= 286))
            && language_tag_result(lang@) is Ok),
        r matches Ok(input) ==> input.lang@ == language_tag_result(lang@)->Ok_0 && match input.target {
            ReadTarget::Surah(s) => ayah is None && s@ == surah,
            ReadTarget::Ayah(p) => ayah == Some(p@.1) && p@.0 == surah,
        },
        r matches Err(e) ==> (e is InvalidSurah || e is InvalidAyah || e is EmptyLanguageTag
            || e is InvalidLanguageTag),
{
    let target = match build_read_target(surah, ayah) {
        Ok(t) => t,
        Err(e) => {
            return Err(e);
        },
    };
    let parsed_lang = match LanguageTag::new(lang) {
        Ok(l) => l,
        Err(e) => {
            return Err(e);
        },
    };
    Ok(
        match target {
            ReadTarget::Surah(value) => ReadInput::for_surah(value, parsed_lang),
            ReadTarget::Ayah(value) => ReadInput::for_ayah(value, parsed_lang),
        },
    )
}

/// The scope of the `search` command as the use case knows it.
pub fn search_scope_of(scope: cli::SearchScope) -> (r: SearchScope)
    ensures
        scope == cli::SearchScope::Quran ==> r == SearchScope::Quran,
        scope == cli::SearchScope::Translation ==> r == SearchScope::Translation,
        scope == cli::SearchScope::All ==> r == SearchScope::All,
{
    match scope {
        cli::SearchScope::Quran => SearchScope::Quran,
        cli::SearchScope::Translation => SearchScope::Translation,
        cli::SearchScope::All => SearchScope::All,
    }
}

/// A bookmark note as typed: a blank one is no note.
pub fn note_from_input(raw: String) -> (r: Option<String>)
    ensures
        trim(raw@).len() == 0 ==> r is None,
        trim(raw@).len() > 0 ==> (r matches Some(n) && n@ == raw@),
{
    if trim_str(raw.as_str()).unicode_len() == 0 {
        None
    } else {
        Some(raw)
    }
}

/// A number typed at a prompt lies in `min..=max`.
pub fn prompt_value_in_range(v: u16, min: u16, max: u16) -> (r: bool)
    ensures
        r == (min <= v <= max),
{
    min <= v && v <= max
}

pub open spec fn range_message(min: u16, max: u16) -> Seq<char> {
    "Nilai harus "@ + decimal(min as nat) + ".."@ + decimal(max as nat)
}

/// The refusal shown for a number outside `min..=max`.
pub fn prompt_range_message(min: u16, max: u16) -> (r: String)
    ensures
        r@ == range_message(min, max),
{
    let mut s = string_of("Nilai harus ");
    push_decimal(&mut s, min as u64);
    append_str(&mut s, "..");
    push_decimal(&mut s, max as u64);
    s
}

// ---------------------------------------------------------------------------
// The interactive menu
// ---------------------------------------------------------------------------

/// Whether the wizard goes on or ends.
#[derive(Debug, Clone, Copy, PartialEq, Eq, Structural)]
pub enum WizardDecision {
    Execute,
    Exit,
}

/// What an entry of the wizard's menu does.
#[derive(Debug, Clone, Copy, PartialEq, Eq, Structural)]
pub enum MenuAction {
    Read,
    Play,
    Search,
    BookmarkAdd,
    BookmarkList,
    BookmarkRemove,
    Continue,
    Plan,
    Sync,
    ConfigShow,
    ConfigSet,
    Tui,
    Doctor,
    Exit,
}

/// The menu, in the order it is shown.
pub open spec fn menu_table() -> Seq<(Seq<char>, MenuAction)> {
    seq![
        ("Baca ayat/surah"@, MenuAction::Read),
        ("Putar audio"@, MenuAction::Play),
        ("Cari ayat"@, MenuAction::Search),
        ("Tambah bookmark"@, MenuAction::BookmarkAdd),
        ("Lihat bookmark"@, MenuAction::BookmarkList),
        ("Hapus bookmark"@, MenuAction::BookmarkRemove),
        ("Lanjutkan progress"@, MenuAction::Continue),
        ("Rencana harian"@, MenuAction::Plan),
        ("Sync metadata"@, MenuAction::Sync),
        ("Lihat konfigurasi"@, MenuAction::ConfigShow),
        ("Ubah konfigurasi"@, MenuAction::ConfigSet),
        ("Buka TUI layar penuh"@, MenuAction::Tui),
        ("Doctor"@, MenuAction::Doctor),
        ("Keluar"@, MenuAction::Exit),
    ]
}

/// The labels of the menu.
pub fn menu_labels() -> (r: Vec<&'static str>)
    ensures
        r@.len() == menu_table().len(),
        forall|i: int| 0 <= i < r@.len() ==> #[trigger] r@[i]@ == menu_table()[i].0,
{
    let mut v: Vec<&'static str> = Vec::new();
    v.push("Baca ayat/surah");
    v.push("Putar audio");
    v.push("Cari ayat");
    v.push("Tambah bookmark");
    v.push("Lihat bookmark");
    v.push("Hapus bookmark");
    v.push("Lanjutkan progress");
    v.push("Rencana harian");
    v.push("Sync metadata");
    v.push("Lihat konfigurasi");
    v.push("Ubah konfigurasi");
    v.push("Buka TUI layar penuh");
    v.push("Doctor");
    v.push("Keluar");
    v
}

/// The action of the first menu entry from `i` on with the given label; an
/// unknown label ends the wizard.
pub open spec fn menu_action_from(label: Seq<char>, i: int) -> MenuAction
    decreases menu_table().len() - i,
{
    if i < 0 || i >= menu_table().len() {
        MenuAction::Exit
    } else if menu_table()[i].0 == label {
        menu_table()[i].1
    } else {
        menu_action_from(label, i + 1)
    }
}

/// The action that a chosen menu label stands for.
pub fn menu_action(label: &str) -> (r: MenuAction)
    ensures
        r == menu_action_from(label@, 0),
{
    let labels = menu_labels();
    let actions: Vec<MenuAction> = vec![
        MenuAction::Read,
        MenuAction::Play,
        MenuAction::Search,
        MenuAction::BookmarkAdd,
        MenuAction::BookmarkList,
        MenuAction::BookmarkRemove,
        MenuAction::Continue,
        MenuAction::Plan,
        MenuAction::Sync,
        MenuAction::ConfigShow,
        MenuAction::ConfigSet,
        MenuAction::Tui,
        MenuAction::Doctor,
        MenuAction::Exit,
    ];
    let n = labels.len();
    let mut i: usize = 0;
    while i < n
        invariant
            n == labels@.len(),
            n == menu_table().len(),
            n == actions@.len(),
            forall|k: int| 0 <= k < n ==> #[trigger] labels@[k]@ == menu_table()[k].0,
            forall|k: int| 0 <= k < n ==> #[trigger] actions@[k] == menu_table()[k].1,
            i <= n,
            menu_action_from(label@, 0) == menu_action_from(label@, i as int),
        decreases n - i,
    {
        if str_eq(labels[i], label) {
            return actions[i];
        }
        i = i + 1;
    }
    MenuAction::Exit
}

/// The scope that a label of the scope menu stands for: all, unless the
/// Qur'an text or the translation is chosen.
pub fn scope_from_choice(label: &str) -> (r: SearchScope)
    ensures
        label@ == "Teks Quran"@ ==> r == SearchScope::Quran,
        label@ == "Terjemahan"@ ==> r == SearchScope::Translation,
        label@ != "Teks Quran"@ && label@ != "Terjemahan"@ ==> r == SearchScope::All,
{
    proof {
        reveal_strlit("Teks Quran");
        reveal_strlit("Terjemahan");
        assert("Teks Quran"@[2] != "Terjemahan"@[2]);
    }
    if str_eq(label, "Teks Quran") {
        SearchScope::Quran
    } else if str_eq(label, "Terjemahan") {
        SearchScope::Translation
    } else {
        SearchScope::All
    }
}

// ---------------------------------------------------------------------------
// Tables and messages
// ---------------------------------------------------------------------------

pub open spec fn row_view(r: Vec<String>) -> Seq<Seq<char>> {
    r@.map_values(|s: String| s@)
}

/// A search hit as a table row: its number, surah, ayah and snippet.
pub open spec fn search_row(i: int, h: SearchHitView) -> Seq<Seq<char>> {
    seq![decimal((i + 1) as nat), decimal(h.surah_no as nat), decimal(h.ayah_no as nat), h.snippet]
}

fn decimal_cell(n: u64) -> (r: String)
    ensures
        r@ == decimal(n as nat),
{
    crate::text::decimal_string(n)
}

pub fn search_rows(hits: &Vec<crate::domain::SearchHit>) -> (r: Vec<Vec<String>>)
    ensures
        r@.len() == hits@.len(),
        forall|i: int| 0 <= i < r@.len() ==> row_view(#[trigger] r@[i]) == search_row(i, hits@[i]@),
{
    let n = hits.len();
    let mut rows: Vec<Vec<String>> = Vec::new();
    let mut i: usize = 0;
    while i < n
        invariant
            n == hits@.len(),
            i <= n,
            rows@.len() == i,
            forall|k: int| 0 <= k < i ==> row_view(#[trigger] rows@[k]) == search_row(k, hits@[k]@),
        decreases n - i,
    {
        let mut row: Vec<String> = Vec::new();
        row.push(decimal_cell((i + 1) as u64));
        row.push(decimal_cell(hits[i].surah_no as u64));
        row.push(decimal_cell(hits[i].ayah_no as u64));
        row.push(hits[i].snippet.clone());
        assert(row_view(row) =~= search_row(i as int, hits@[i as int]@));
        rows.push(row);
        i = i + 1;
    }
    rows
}

/// A bookmark as a table row: id, surah, ayah, note (or `-`), creation time.
pub open spec fn bookmark_row(b: BookmarkView) -> Seq<Seq<char>> {
    seq![
        signed_decimal(b.id as int),
        decimal(b.surah_no as nat),
        decimal(b.ayah_no as nat),
        match b.note {
            Some(n) => n,
            None => "-"@,
        },
        b.created_at,
    ]
}

pub fn bookmark_rows(bookmarks: &Vec<crate::domain::Bookmark>) -> (r: Vec<Vec<String>>)
    ensures
        r@.len() == bookmarks@.len(),
        forall|i: int|
            0 <= i < r@.len() ==> row_view(#[trigger] r@[i]) == bookmark_row(bookmarks@[i]@),
{
    let n = bookmarks.len();
    let mut rows: Vec<Vec<String>> = Vec::new();
    let mut i: usize = 0;
    while i < n
        invariant
            n == bookmarks@.len(),
            i <= n,
            rows@.len() == i,
            forall|k: int|
                0 <= k < i ==> row_view(#[trigger] rows@[k]) == bookmark_row(bookmarks@[k]@),
        decreases n - i,
    {
        let b = &bookmarks[i];
        let mut id = String::new();
        push_signed_decimal(&mut id, b.id);
        let mut row: Vec<String> = Vec::new();
        row.push(id);
        row.push(decimal_cell(b.surah_no as u64));
        row.push(decimal_cell(b.ayah_no as u64));
        row.push(
            match &b.note {
                Some(n) => n.clone(),
                None => string_of("-"),
            },
        );
        row.push(b.created_at.clone());
        assert(row_view(row) =~= bookmark_row(bookmarks@[i as int]@));
        rows.push(row);
        i = i + 1;
    }
    rows
}

/// An ayah of the daily plan as a table row: surah, ayah, and the
/// translation (or the Arabic text when there is none).
pub open spec fn plan_row(a: AyahView) -> Seq<Seq<char>> {
    seq![
        decimal(a.surah_no as nat),
        decimal(a.ayah_no as nat),
        match a.translation {
            Some(t) => t,
            None => a.arabic_text,
        },
    ]
}

pub fn plan_rows(ayahs: &Vec<crate::domain::Ayah>) -> (r: Vec<Vec<String>>)
    ensures
        r@.len() == ayahs@.len(),
        forall|i: int| 0 <= i < r@.len() ==> row_view(#[trigger] r@[i]) == plan_row(ayahs@[i]@),
{
    let n = ayahs.len();
    let mut rows: Vec<Vec<String>> = Vec::new();
    let mut i: usize = 0;
    while i < n
        invariant
            n == ayahs@.len(),
            i <= n,
            rows@.len() == i,
            forall|k: int| 0 <= k < i ==> row_view(#[trigger] rows@[k]) == plan_row(ayahs@[k]@),
        decreases n - i,
    {
        let a = &ayahs[i];
        let mut row: Vec<String> = Vec::new();
        row.push(decimal_cell(a.surah_no as u64));
        row.push(decimal_cell(a.ayah_no as u64));
        row.push(
            match &a.translation {
                Some(t) => t.clone(),
                None => a.arabic_text.clone(),
            },
        );
        assert(row_view(row) =~= plan_row(ayahs@[i as int]@));
        rows.push(row);
        i = i + 1;
    }
    rows
}

pub open spec fn bookmark_added_text(id: i64, surah: u16, ayah: u16) -> Seq<char> {
    "Bookmark #"@ + signed_decimal(id as int) + " ditambahkan di "@ + decimal(surah as nat) + ":"@
        + decimal(ayah as nat)
}

/// The confirmation of `bookmark add`.
pub fn bookmark_added_message(id: i64, surah: u16, ayah: u16) -> (r: String)
    ensures
        r@ == bookmark_added_text(id, surah, ayah),
{
    let mut s = string_of("Bookmark #");
    push_signed_decimal(&mut s, id);
    append_str(&mut s, " ditambahkan di ");
    push_decimal(&mut s, surah as u64);
    append_str(&mut s, ":");
    push_decimal(&mut s, ayah as u64);
    s
}

/// The outcome of `bookmark remove`: whether a bookmark was removed, and
/// the line that says so.
pub open spec fn bookmark_removed_text(id: i64, deleted: usize) -> (bool, Seq<char>) {
    if deleted == 0 {
        (false, "Bookmark #"@ + signed_decimal(id as int) + " tidak ditemukan."@)
    } else {
        (true, "Bookmark #"@ + signed_decimal(id as int) + " dihapus."@)
    }
}

pub fn bookmark_removed_message(id: i64, deleted: usize) -> (r: (bool, String))
    ensures
        (r.0, r.1@) == bookmark_removed_text(id, deleted),
{
    let mut s = string_of("Bookmark #");
    push_signed_decimal(&mut s, id);
    if deleted == 0 {
        append_str(&mut s, " tidak ditemukan.");
        (false, s)
    } else {
        append_str(&mut s, " dihapus.");
        (true, s)
    }
}

/// What removing a bookmark needs before it goes ahead: nothing with
/// `--yes`; otherwise a confirmation, which cannot be asked without a
/// terminal.
#[derive(Debug, Clone, Copy, PartialEq, Eq, Structural)]
pub enum RemovalGate {
    Proceed,
    Confirm,
    Refuse,
}

pub fn removal_gate(assume_yes: bool, stdin_is_terminal: bool) -> (r: RemovalGate)
    ensures
        r == (if assume_yes {
            RemovalGate::Proceed
        } else if !stdin_is_terminal {
            RemovalGate::Refuse
        } else {
            RemovalGate::Confirm
        }),
{
    if assume_yes {
        RemovalGate::Proceed
    } else if !stdin_is_terminal {
        RemovalGate::Refuse
    } else {
        RemovalGate::Confirm
    }
}

/// Why a removal without a terminal and without `--yes` is refused.
pub fn removal_refused_message() -> (r: &'static str)
    ensures
        r@ == "Menghapus bookmark butuh konfirmasi.\nHint: pakai `--yes` untuk mode non-interaktif."@,
{
    "Menghapus bookmark butuh konfirmasi.\nHint: pakai `--yes` untuk mode non-interaktif."
}

/// The question that confirms a removal.
pub fn removal_prompt(id: i64) -> (r: String)
    ensures
        r@ == "Hapus bookmark #"@ + signed_decimal(id as int) + "? Aksi ini tidak bisa dibatalkan."@,
{
    let mut s = string_of("Hapus bookmark #");
    push_signed_decimal(&mut s, id);
    append_str(&mut s, "? Aksi ini tidak bisa dibatalkan.");
    s
}

/// How a sync outcome is reported: the status label of the text output, the
/// message, and the status of the JSON output.
pub open spec fn sync_report_spec(status: SyncStatus) -> (Seq<char>, Seq<char>, Seq<char>) {
    match status {
        SyncStatus::Skipped => (
            "INFO"@,
            "Sync dinonaktifkan di config. Gunakan --force untuk bypass."@,
            "skipped"@,
        ),
        SyncStatus::Success(m) => ("OK"@, m@, "success"@),
        SyncStatus::Failure(m) => ("ERR"@, m@, "failure"@),
    }
}

pub fn sync_report(status: &SyncStatus) -> (r: (&'static str, String, &'static str))
    ensures
        (r.0@, r.1@, r.2@) == sync_report_spec(*status),
{
    match status {
        SyncStatus::Skipped => (
            "INFO",
            string_of("Sync dinonaktifkan di config. Gunakan --force untuk bypass."),
            "skipped",
        ),
        SyncStatus::Success(m) => ("OK", m.clone(), "success"),
        SyncStatus::Failure(m) => ("ERR", m.clone(), "failure"),
    }
}

/// The message of a skipped sync in the JSON output.
pub fn sync_skipped_json_message() -> (r: &'static str)
    ensures
        r@ == "Sync dinonaktifkan."@,
{
    "Sync dinonaktifkan."
}

/// How the doctor reports whether a file exists.
pub fn presence_label(present: bool) -> (r: &'static str)
    ensures
        r@ == if present {
            "ok"@
        } else {
            "missing"@
        },
{
    if present {
        "ok"
    } else {
        "missing"
    }
}

} // verus!
