//! The command line: its commands and arguments as plain data, and the
//! checks on argument values that are this program's own.
use std::path::PathBuf;

use vstd::prelude::*;
use vstd::string::*;

use crate::text::{parse_u64, parse_u64_spec, string_of};

verus! {

/// The command line as parsed.
#[derive(Debug)]
pub struct Cli {
    pub data_dir: Option<PathBuf>,
    pub plain: bool,
    pub json: bool,
    pub verbose: u8,
    pub debug: bool,
    pub no_color: bool,
    pub yes: bool,
    pub command: Option<Command>,
}

#[derive(Debug)]
pub enum Command {
    Interactive,
    Read(ReadArgs),
    Play(PlayArgs),
    Search(SearchArgs),
    Bookmark { command: BookmarkCommand },
    Continue,
    Plan { count: usize },
    Sync { force: bool },
    Tui,
    Config { command: ConfigCommand },
    Doctor,
}

#[derive(Debug)]
pub struct ReadArgs {
    pub surah: u16,
    pub ayah: Option<u16>,
    pub lang: String,
}

#[derive(Debug)]
pub struct PlayArgs {
    pub surah: u16,
    pub ayah: Option<u16>,
    pub qari: Option<String>,
    pub no_cache: bool,
    pub open: bool,
}

#[derive(Debug, Clone, Copy, PartialEq, Eq, Structural)]
pub enum SearchScope {
    Quran,
    Translation,
    All,
}

#[derive(Debug)]
pub struct SearchArgs {
    pub query: String,
    pub scope: SearchScope,
    pub limit: u16,
}

#[derive(Debug)]
pub enum BookmarkCommand {
    Add(BookmarkAddArgs),
    List,
    Remove { bookmark_id: i64 },
}

#[derive(Debug)]
pub struct BookmarkAddArgs {
    pub surah: u16,
    pub ayah: u16,
    pub note: Option<String>,
}

#[derive(Debug)]
pub enum ConfigCommand {
    SetValue { key: String, value: String },
    Show,
}

/// The `--count` of `plan`: a whole number from 1 to 1000, or the message
/// that refuses the text.
pub open spec fn plan_count_spec(value: Seq<char>) -> Result<usize, Seq<char>> {
    match parse_u64_spec(value) {
        None => Err("count harus berupa angka"@),
        Some(n) => if 1 <= n <= 1000 {
            Ok(n as usize)
        } else {
            Err("count harus 1..1000"@)
        },
    }
}

pub fn parse_plan_count(value: &str) -> (r: Result<usize, String>)
    ensures
        match plan_count_spec(value@) {
            Ok(n) => r == Ok::<usize, String>(n),
            Err(m) => r matches Err(e) && e@ == m,
        },
{
    match parse_u64(value) {
        None => Err(string_of("count harus berupa angka")),
        Some(n) => {
            if 1 <= n && n <= 1000 {
                Ok(n as usize)
            } else {
                Err(string_of("count harus 1..1000"))
            }
        },
    }
}

} // verus!
