//! Recitation playback: qari names, cache file names, and the playlist logic
//! of the player. The player here decides; the sound device and the download
//! cache, which it drives through `AudioCommand`s, live with the caller.
use vstd::prelude::*;
use vstd::string::*;

use crate::domain::{Ayah, AyahView};
use crate::ports::RepoError;
use crate::text::{
    append_str, decimal, is_ascii_alnum, push_char, push_decimal, push_zero_padded, str_eq,
    string_of, zero_padded,
};

verus! {

/// The display name of a canonical qari id.
pub open spec fn qari_display_name(id: Seq<char>) -> Seq<char> {
    if id == "01"@ {
        "Abdullah Al-Juhany"@
    } else if id == "02"@ {
        "Abdul Muhsin Al-Qasim"@
    } else if id == "03"@ {
        "Abdurrahman As-Sudais"@
    } else if id == "04"@ {
        "Ibrahim Al-Dossari"@
    } else if id == "05"@ {
        "Misyari Rasyid Al-Afasy"@
    } else if id == "06"@ {
        "Yasser Al-Dosari"@
    } else {
        "Qari Tidak Dikenal"@
    }
}

pub fn qari_name(id: &str) -> (r: &'static str)
    ensures
        r@ == qari_display_name(id@),
{
    if str_eq(id, "01") {
        "Abdullah Al-Juhany"
    } else if str_eq(id, "02") {
        "Abdul Muhsin Al-Qasim"
    } else if str_eq(id, "03") {
        "Abdurrahman As-Sudais"
    } else if str_eq(id, "04") {
        "Ibrahim Al-Dossari"
    } else if str_eq(id, "05") {
        "Misyari Rasyid Al-Afasy"
    } else if str_eq(id, "06") {
        "Yasser Al-Dosari"
    } else {
        "Qari Tidak Dikenal"
    }
}

/// The qari after `current` in the cycle 01, 02, ..., 06, 01; anything
/// unknown restarts the cycle at 01.
pub open spec fn next_qari_spec(current: Seq<char>) -> Seq<char> {
    if current == "01"@ {
        "02"@
    } else if current == "02"@ {
        "03"@
    } else if current == "03"@ {
        "04"@
    } else if current == "04"@ {
        "05"@
    } else if current == "05"@ {
        "06"@
    } else {
        "01"@
    }
}

pub fn next_qari(current: &str) -> (r: String)
    ensures
        r@ == next_qari_spec(current@),
{
    if str_eq(current, "01") {
        string_of("02")
    } else if str_eq(current, "02") {
        string_of("03")
    } else if str_eq(current, "03") {
        string_of("04")
    } else if str_eq(current, "04") {
        string_of("05")
    } else if str_eq(current, "05") {
        string_of("06")
    } else {
        string_of("01")
    }
}

/// The ASCII letters and digits of `s`, in order.
pub open spec fn ascii_alnum_only(s: Seq<char>) -> Seq<char>
    decreases s.len(),
{
    if s.len() == 0 {
        s
    } else if is_ascii_alnum(s.last()) {
        ascii_alnum_only(s.drop_last()).push(s.last())
    } else {
        ascii_alnum_only(s.drop_last())
    }
}

/// A qari id reduced to characters that are safe in a file name.
pub fn sanitize_qari_id(value: &str) -> (r: String)
    ensures
        r@ == ascii_alnum_only(value@),
{
    let n = value.unicode_len();
    let mut out = String::new();
    let mut i: usize = 0;
    while i < n
        invariant
            n == value@.len(),
            i <= n,
            out@ == ascii_alnum_only(value@.subrange(0, i as int)),
        decreases n - i,
    {
        let c = value.get_char(i);
        assert(value@.subrange(0, i + 1).drop_last() =~= value@.subrange(0, i as int));
        if ('A' <= c && c <= 'Z') || ('a' <= c && c <= 'z') || ('0' <= c && c <= '9') {
            push_char(&mut out, c);
        }
        i = i + 1;
    }
    assert(value@.subrange(0, n as int) =~= value@);
    out
}

/// The cache file name of one ayah: `SSS-AAA.mp3` with zero-padded numbers.
pub fn cached_ayah_file_name(surah: u16, ayah: u16) -> (r: String)
    ensures
        r@ == zero_padded(surah as nat, 3) + "-"@ + zero_padded(ayah as nat, 3) + ".mp3"@,
{
    let mut s = String::new();
    push_zero_padded(&mut s, surah as u64, 3);
    append_str(&mut s, "-");
    push_zero_padded(&mut s, ayah as u64, 3);
    append_str(&mut s, ".mp3");
    assert(s@ =~= zero_padded(surah as nat, 3) + "-"@ + zero_padded(ayah as nat, 3) + ".mp3"@);
    s
}

/// The name of a streamed (uncached) ayah file: `QARI-SSS-AAA.mp3`, with the
/// qari id reduced to letters and digits.
pub fn streamed_ayah_file_name(qari: &str, surah: u16, ayah: u16) -> (r: String)
    ensures
        r@ == ascii_alnum_only(qari@) + "-"@ + zero_padded(surah as nat, 3) + "-"@ + zero_padded(
            ayah as nat,
            3,
        ) + ".mp3"@,
{
    let mut s = sanitize_qari_id(qari);
    append_str(&mut s, "-");
    let rest = cached_ayah_file_name(surah, ayah);
    append_str(&mut s, rest.as_str());
    assert(s@ =~= ascii_alnum_only(qari@) + "-"@ + zero_padded(surah as nat, 3) + "-"@
        + zero_padded(ayah as nat, 3) + ".mp3"@);
    s
}

/// One entry of the audio cache: its size in bytes and its age key
/// (smaller means modified earlier).
#[derive(Debug, Clone, Copy, PartialEq, Eq, Structural)]
pub struct CacheEntry {
    pub size: u64,
    pub modified: u64,
}

/// The order in which the cache is trimmed: by age, oldest first, keeping the
/// listing order among entries of the same age (a stable sort by age).
pub open spec fn is_age_order(entries: Seq<CacheEntry>, order: Seq<usize>) -> bool {
    &&& order.len() == entries.len()
    &&& order.no_duplicates()
    &&& forall|i: int| 0 <= i < order.len() ==> #[trigger] order[i] < entries.len()
    &&& forall|i: int, j: int|
        0 <= i < j < order.len() ==> entries[#[trigger] order[i] as int].modified < entries[
            #[trigger] order[j] as int].modified || (entries[order[i] as int].modified
            == entries[order[j] as int].modified && order[i] < order[j])
}

/// Sorts the cache entries by age, oldest first; entries of the same age keep
/// their listing order.
pub fn eviction_order(entries: &Vec<CacheEntry>) -> (order: Vec<usize>)
    ensures
        is_age_order(entries@, order@),
{
    let n = entries.len();
    let mut order: Vec<usize> = Vec::new();
    let mut k: usize = 0;
    // insertion sort of the indices 0..n
    while k < n
        invariant
            n == entries@.len(),
            k <= n,
            order@.len() == k,
            forall|i: int| 0 <= i < order@.len() ==> #[trigger] order@[i] < k,
            order@.no_duplicates(),
            forall|i: int, j: int|
                0 <= i < j < order@.len() ==> entries@[#[trigger] order@[i] as int].modified
                    < entries@[#[trigger] order@[j] as int].modified || (entries@[order@[
                    i] as int].modified == entries@[order@[j] as int].modified && order@[i]
                    < order@[j]),
        decreases n - k,
    {
        let key = entries[k].modified;
        // find the first position whose entry is strictly newer than `k`
        let mut p: usize = 0;
        while p < order.len() && entries[order[p]].modified <= key
            invariant
                n == entries@.len(),
                k < n,
                p <= order@.len(),
                forall|i: int| 0 <= i < order@.len() ==> #[trigger] order@[i] < k,
                forall|i: int| 0 <= i < p ==> entries@[#[trigger] order@[i] as int].modified <= key,
            decreases order@.len() - p,
        {
            p = p + 1;
        }
        let ghost before = order@;
        order.insert(p, k);
        proof {
            assert(order@ =~= before.insert(p as int, k));
            assert forall|i: int| 0 <= i < order@.len() implies #[trigger] order@[i] < k + 1 by {
                if i < p {
                    assert(order@[i] == before[i]);
                } else if i > p {
                    assert(order@[i] == before[i - 1]);
                }
            }
            assert forall|i: int, j: int| 0 <= i < j < order@.len() implies order@[i] != order@[j] by {
                if i < p && j < p {
                } else if i < p && j == p {
                    assert(before[i] < k);
                } else if i < p {
                    assert(order@[j] == before[j - 1]);
                } else if i == p {
                    assert(order@[j] == before[j - 1]);
                    assert(before[j - 1] < k);
                } else {
                    assert(order@[i] == before[i - 1]);
                    assert(order@[j] == before[j - 1]);
                }
            }
            assert forall|i: int, j: int|
                0 <= i < j < order@.len() implies entries@[#[trigger] order@[i] as int].modified
                < entries@[#[trigger] order@[j] as int].modified || (entries@[order@[
                i] as int].modified == entries@[order@[j] as int].modified && order@[i]
                < order@[j]) by {
                if j < p {
                    assert(order@[i] == before[i]);
                    assert(order@[j] == before[j]);
                } else if i < p && j == p {
                    assert(order@[i] == before[i]);
                    assert(before[i] < k);
                } else if i < p {
                    assert(order@[i] == before[i]);
                    assert(order@[j] == before[j - 1]);
                } else if i == p {
                    assert(order@[j] == before[j - 1]);
                    if j - 1 > p {
                        assert(entries@[before[p as int] as int].modified > key);
                    }
                } else {
                    assert(order@[i] == before[i - 1]);
                    assert(order@[j] == before[j - 1]);
                }
            }
        }
        k = k + 1;
    }
    order
}

// ---------------------------------------------------------------------------
// The player
// ---------------------------------------------------------------------------

/// What the player reports after a periodic check.
#[derive(Debug, Clone, Copy, PartialEq, Eq, Structural)]
pub enum PlayerTick {
    NoChange,
    AyahStarted(usize),
    Finished,
}

/// An action on the sound device that a player decision calls for.
#[derive(Debug, Clone, Copy, PartialEq, Eq, Structural)]
pub enum AudioCommand {
    /// Open the output device for a new player.
    Open,
    /// Stop whatever plays and play ayah `index` of the playlist, with the
    /// player's qari and speed.
    Start(usize),
    Pause,
    Resume,
    Stop,
    /// Set the playback speed, in hundredths.
    SetSpeed(u16),
    /// Release the output device: the player is gone.
    Close,
}

pub struct PlayerView {
    pub ayahs: Seq<AyahView>,
    pub index: usize,
    pub selected_qari: Option<Seq<char>>,
    pub fallback_qari: Seq<char>,
    pub rate: u16,
    pub paused: bool,
    pub stopped: bool,
    pub has_sink: bool,
}

/// The playlist state of a recitation player. Speeds are in hundredths
/// (100 is normal speed) and stay within 75..=125.
#[derive(Debug)]
pub struct AudioPlayer {
    pub ayahs: Vec<Ayah>,
    pub index: usize,
    pub selected_qari: Option<String>,
    pub fallback_qari: String,
    pub rate: u16,
    pub paused: bool,
    pub stopped: bool,
    pub has_sink: bool,
}

pub open spec fn ayahs_view(v: Seq<Ayah>) -> Seq<AyahView> {
    v.map_values(|a: Ayah| a@)
}

pub open spec fn opt_str_view(o: Option<String>) -> Option<Seq<char>> {
    match o {
        Some(s) => Some(s@),
        None => None,
    }
}

impl View for AudioPlayer {
    type V = PlayerView;

    open spec fn view(&self) -> PlayerView {
        PlayerView {
            ayahs: ayahs_view(self.ayahs@),
            index: self.index,
            selected_qari: opt_str_view(self.selected_qari),
            fallback_qari: self.fallback_qari@,
            rate: self.rate,
            paused: self.paused,
            stopped: self.stopped,
            has_sink: self.has_sink,
        }
    }
}

pub open spec fn player_wf(p: PlayerView) -> bool {
    &&& p.ayahs.len() > 0
    &&& p.index < p.ayahs.len()
    &&& 75 <= p.rate <= 125
}

/// The state after playback (re)starts at `index`.
pub open spec fn started_at(p: PlayerView, index: usize) -> PlayerView {
    PlayerView { index, paused: false, stopped: false, has_sink: true, ..p }
}

/// The state after a stop.
pub open spec fn stopped_player(p: PlayerView) -> PlayerView {
    PlayerView { has_sink: false, stopped: true, ..p }
}

pub open spec fn stop_commands(p: PlayerView) -> Seq<AudioCommand> {
    if p.has_sink {
        seq![AudioCommand::Stop]
    } else {
        seq![]
    }
}

pub open spec fn toggled_pause(p: PlayerView) -> PlayerView {
    PlayerView { paused: !p.paused, ..p }
}

pub open spec fn with_rate(p: PlayerView, rate: u16) -> PlayerView {
    PlayerView { rate, ..p }
}

pub open spec fn with_qari(p: PlayerView, qari: Seq<char>) -> PlayerView {
    PlayerView { selected_qari: Some(qari), ..p }
}

pub open spec fn toggle_command(p: PlayerView) -> AudioCommand {
    if p.paused {
        AudioCommand::Resume
    } else {
        AudioCommand::Pause
    }
}

pub open spec fn speed_commands(p: PlayerView, rate: u16) -> Seq<AudioCommand> {
    if p.has_sink {
        seq![AudioCommand::SetSpeed(rate)]
    } else {
        seq![]
    }
}

/// A player as first built, before playback starts.
pub open spec fn fresh_player(
    ayahs: Seq<AyahView>,
    index: usize,
    selected_qari: Option<Seq<char>>,
    fallback_qari: Seq<char>,
) -> PlayerView {
    PlayerView {
        ayahs,
        index,
        selected_qari,
        fallback_qari,
        rate: 100,
        paused: false,
        stopped: false,
        has_sink: false,
    }
}

/// The periodic check: a stopped player reports that it finished; a playing
/// one whose ayah ended moves to the next ayah, or stops after the last.
pub open spec fn tick_outcome(p: PlayerView, sink_empty: bool) -> (
    PlayerTick,
    PlayerView,
    Seq<AudioCommand>,
) {
    if p.stopped {
        (PlayerTick::Finished, p, seq![])
    } else if p.has_sink && !p.paused && sink_empty {
        if p.index + 1 < p.ayahs.len() {
            let i = (p.index + 1) as usize;
            (PlayerTick::AyahStarted(i), started_at(p, i), seq![AudioCommand::Start(i)])
        } else {
            (PlayerTick::Finished, stopped_player(p), stop_commands(p))
        }
    } else {
        (PlayerTick::NoChange, p, seq![])
    }
}

pub open spec fn clamp_rate(r: int) -> u16 {
    if r < 75 {
        75
    } else if r > 125 {
        125
    } else {
        r as u16
    }
}

impl AudioPlayer {
    pub open spec fn wf(&self) -> bool {
        player_wf(self@)
    }

    /// A player for `ayahs`, playing from `start_index` (or the last ayah, if
    /// the index lies beyond the playlist). An empty playlist is refused.
    pub fn new(
        ayahs: Vec<Ayah>,
        start_index: usize,
        selected_qari: Option<String>,
        fallback_qari: String,
        cmds: &mut Vec<AudioCommand>,
    ) -> (r: Result<AudioPlayer, RepoError>)
        ensures
            ayahs@.len() == 0 <==> r is Err,
            r matches Err(e) ==> e.message@ == "Playlist audio kosong"@ && final(cmds)@ == old(
                cmds,
            )@,
            r matches Ok(p) ==> {
                let start = if start_index < ayahs@.len() {
                    start_index
                } else {
                    (ayahs@.len() - 1) as usize
                };
                &&& p.wf()
                &&& p@ == started_at(
                    fresh_player(
                        ayahs_view(ayahs@),
                        start_index,
                        opt_str_view(selected_qari),
                        fallback_qari@,
                    ),
                    start,
                )
                &&& final(cmds)@ == old(cmds)@ + seq![AudioCommand::Open, AudioCommand::Start(start)]
            },
    {
        if ayahs.len() == 0 {
            return Err(RepoError { message: string_of("Playlist audio kosong") });
        }
        let len = ayahs.len();
        let mut player = AudioPlayer {
            ayahs,
            index: start_index,
            selected_qari,
            fallback_qari,
            rate: 100,
            paused: false,
            stopped: false,
            has_sink: false,
        };
        cmds.push(AudioCommand::Open);
        let actual_start = if start_index < len {
            start_index
        } else {
            len - 1
        };
        player.start_at(actual_start, cmds);
        Ok(player)
    }

    /// Playback (re)starts at `index`.
    pub fn start_at(&mut self, index: usize, cmds: &mut Vec<AudioCommand>)
        requires
            index < old(self)@.ayahs.len(),
        ensures
            final(self)@ == started_at(old(self)@, index),
            final(cmds)@ == old(cmds)@.push(AudioCommand::Start(index)),
    {
        self.index = index;
        self.paused = false;
        self.stopped = false;
        self.has_sink = true;
        cmds.push(AudioCommand::Start(index));
    }

    pub fn current_ayah(&self) -> (r: Option<&Ayah>)
        ensures
            self@.index < self@.ayahs.len() ==> r is Some && r->0@ == self@.ayahs[self@.index as int],
            self@.index >= self@.ayahs.len() ==> r is None,
    {
        if self.index < self.ayahs.len() {
            Some(&self.ayahs[self.index])
        } else {
            None
        }
    }

    /// Pauses a playing player or resumes a paused one.
    pub fn toggle_pause(&mut self, cmds: &mut Vec<AudioCommand>)
        ensures
            old(self)@.has_sink ==> final(self)@ == toggled_pause(old(self)@) && final(cmds)@
                == old(cmds)@.push(toggle_command(old(self)@)),
            !old(self)@.has_sink ==> final(self)@ == old(self)@ && final(cmds)@ == old(cmds)@,
    {
        if self.has_sink {
            if self.paused {
                cmds.push(AudioCommand::Resume);
            } else {
                cmds.push(AudioCommand::Pause);
            }
            self.paused = !self.paused;
        }
    }

    pub fn stop(&mut self, cmds: &mut Vec<AudioCommand>)
        ensures
            final(self)@ == stopped_player(old(self)@),
            final(cmds)@ == old(cmds)@ + stop_commands(old(self)@),
    {
        if self.has_sink {
            cmds.push(AudioCommand::Stop);
        }
        self.has_sink = false;
        self.stopped = true;
    }

    /// Moves to the next ayah; at the end of the playlist, stops instead and
    /// answers `false`.
    pub fn advance(&mut self, cmds: &mut Vec<AudioCommand>) -> (moved: bool)
        requires
            old(self).wf(),
        ensures
            final(self).wf(),
            moved == (old(self)@.index + 1 < old(self)@.ayahs.len()),
            moved ==> final(self)@ == started_at(old(self)@, (old(self)@.index + 1) as usize)
                && final(cmds)@ == old(cmds)@.push(AudioCommand::Start((old(self)@.index + 1) as usize)),
            !moved ==> final(self)@ == stopped_player(old(self)@) && final(cmds)@ == old(cmds)@
                + stop_commands(old(self)@),
    {
        let len = self.ayahs.len();
        if self.index + 1 >= len {
            self.stop(cmds);
            return false;
        }
        let next = self.index + 1;
        self.start_at(next, cmds);
        true
    }

    /// Moves to the previous ayah; at the start of the playlist, answers
    /// `false` and changes nothing.
    pub fn prev(&mut self, cmds: &mut Vec<AudioCommand>) -> (moved: bool)
        requires
            old(self).wf(),
        ensures
            final(self).wf(),
            moved == (old(self)@.index > 0),
            moved ==> final(self)@ == started_at(old(self)@, (old(self)@.index - 1) as usize)
                && final(cmds)@ == old(cmds)@.push(AudioCommand::Start((old(self)@.index - 1) as usize)),
            !moved ==> final(self)@ == old(self)@ && final(cmds)@ == old(cmds)@,
    {
        if self.index == 0 {
            return false;
        }
        let prev = self.index - 1;
        self.start_at(prev, cmds);
        true
    }

    pub fn restart_current(&mut self, cmds: &mut Vec<AudioCommand>)
        requires
            old(self).wf(),
        ensures
            final(self).wf(),
            final(self)@ == started_at(old(self)@, old(self)@.index),
            final(cmds)@ == old(cmds)@.push(AudioCommand::Start(old(self)@.index)),
    {
        let i = self.index;
        self.start_at(i, cmds);
    }

    /// The periodic check: when the current ayah has finished playing
    /// (`sink_empty`, as the device reports it), the next one starts, or the
    /// player stops at the end of the playlist.
    pub fn tick(&mut self, sink_empty: bool, cmds: &mut Vec<AudioCommand>) -> (t: PlayerTick)
        requires
            old(self).wf(),
        ensures
            final(self).wf(),
            t == tick_outcome(old(self)@, sink_empty).0,
            final(self)@ == tick_outcome(old(self)@, sink_empty).1,
            final(cmds)@ == old(cmds)@ + tick_outcome(old(self)@, sink_empty).2,
    {
        if self.stopped {
            return PlayerTick::Finished;
        }
        if self.has_sink && !self.paused && sink_empty {
            let len = self.ayahs.len();
            if self.index + 1 < len {
                let next = self.index + 1;
                self.start_at(next, cmds);
                return PlayerTick::AyahStarted(self.index);
            }
            self.stop(cmds);
            return PlayerTick::Finished;
        }
        PlayerTick::NoChange
    }

    pub fn is_paused(&self) -> (r: bool)
        ensures
            r == self@.paused,
    {
        self.paused
    }

    /// Sets the speed, clamped to 75..=125 hundredths.
    pub fn set_playback_rate(&mut self, rate: u16, cmds: &mut Vec<AudioCommand>)
        ensures
            final(self)@ == with_rate(old(self)@, clamp_rate(rate as int)),
            final(cmds)@ == old(cmds)@ + speed_commands(old(self)@, clamp_rate(rate as int)),
    {
        let clamped = if rate < 75 {
            75
        } else if rate > 125 {
            125
        } else {
            rate
        };
        self.rate = clamped;
        if self.has_sink {
            cmds.push(AudioCommand::SetSpeed(clamped));
        }
    }

    pub fn playback_rate(&self) -> (r: u16)
        ensures
            r == self@.rate,
    {
        self.rate
    }

    /// Switches to another qari and restarts the current ayah with it.
    pub fn set_qari(&mut self, qari_id: String, cmds: &mut Vec<AudioCommand>)
        requires
            old(self).wf(),
        ensures
            final(self).wf(),
            final(self)@ == started_at(with_qari(old(self)@, qari_id@), old(self)@.index),
            final(cmds)@ == old(cmds)@.push(AudioCommand::Start(old(self)@.index)),
    {
        self.selected_qari = Some(qari_id);
        let i = self.index;
        self.start_at(i, cmds);
    }
}

/// A speed in hundredths as readers see it, such as `1.05x`.
pub open spec fn speed_text(rate: u16) -> Seq<char> {
    decimal((rate / 100) as nat) + "."@ + zero_padded((rate % 100) as nat, 2) + "x"@
}

pub fn speed_label(rate: u16) -> (r: String)
    ensures
        r@ == speed_text(rate),
{
    let mut s = String::new();
    push_decimal(&mut s, (rate / 100) as u64);
    append_str(&mut s, ".");
    push_zero_padded(&mut s, (rate % 100) as u64, 2);
    append_str(&mut s, "x");
    assert(s@ =~= speed_text(rate));
    s
}

/// The cache's size limit in bytes for a limit in mebibytes.
pub fn cache_limit_bytes(max_mb: u64) -> (r: u64)
    requires
        max_mb * 1048576 <= u64::MAX,
    ensures
        r == max_mb * 1048576,
{
    max_mb * 1024 * 1024
}

pub open spec fn sizes_total(entries: Seq<CacheEntry>) -> int
    decreases entries.len(),
{
    if entries.len() == 0 {
        0
    } else {
        sizes_total(entries.drop_last()) + entries.last().size
    }
}

/// The bytes the cache holds, counted up to `u64::MAX`.
pub fn cache_total(entries: &Vec<CacheEntry>) -> (r: u64)
    ensures
        r == if sizes_total(entries@) > u64::MAX {
            u64::MAX as int
        } else {
            sizes_total(entries@)
        },
{
    let n = entries.len();
    let mut total: u64 = 0;
    let mut i: usize = 0;
    while i < n
        invariant
            n == entries@.len(),
            i <= n,
            total == if sizes_total(entries@.subrange(0, i as int)) > u64::MAX {
                u64::MAX as int
            } else {
                sizes_total(entries@.subrange(0, i as int))
            },
        decreases n - i,
    {
        assert(entries@.subrange(0, i + 1).drop_last() =~= entries@.subrange(0, i as int));
        total = total.saturating_add(entries[i].size);
        i = i + 1;
    }
    assert(entries@.subrange(0, n as int) =~= entries@);
    total
}

/// Whether files must still go: the cache is on, has a limit, and holds
/// more than it.
pub fn cache_over_limit(enabled: bool, total: u64, max_bytes: u64) -> (r: bool)
    ensures
        r == (enabled && max_bytes > 0 && total > max_bytes),
{
    enabled && max_bytes > 0 && total > max_bytes
}

/// The qari whose recitation is fetched: the chosen one, else the fallback.
pub fn fetch_qari<'a>(selected_qari: Option<&'a str>, fallback_qari: &'a str) -> (r: &'a str)
    ensures
        r@ == match selected_qari {
            Some(q) => q@,
            None => fallback_qari@,
        },
{
    match selected_qari {
        Some(q) => q,
        None => fallback_qari,
    }
}

} // verus!
