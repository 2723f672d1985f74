//! Verified core of a terminal Qur'an reader: domain values, use cases,
//! configuration rules, response parsing and the reader's state machine.
use vstd::prelude::*;

use crate::text::{append_str, string_of};

pub mod audio;
pub mod cli;
pub mod commands;
pub mod config;
pub mod domain;
pub mod dto;
pub mod output;
pub mod ports;
pub mod qari_urls;
pub mod quran_api;
pub mod text;
pub mod tui;
pub mod usecases;

verus! {

/// The log level that the command-line flags ask for: `--debug` or `-v`
/// give debug, `-vv` trace, and info otherwise.
pub open spec fn log_level_spec(verbose: u8, debug: bool) -> Seq<char> {
    if debug {
        "debug"@
    } else if verbose >= 2 {
        "trace"@
    } else if verbose >= 1 {
        "debug"@
    } else {
        "info"@
    }
}

pub fn log_level(verbose: u8, debug: bool) -> (r: &'static str)
    ensures
        r@ == log_level_spec(verbose, debug),
{
    if debug {
        "debug"
    } else if verbose >= 2 {
        "trace"
    } else if verbose >= 1 {
        "debug"
    } else {
        "info"
    }
}

/// The log filter used when the environment sets none: only this crate's
/// own messages, at the given level.
pub fn default_log_filter(level: &str) -> (r: String)
    ensures
        r@ == "tada_rust="@ + level@,
{
    let mut s = string_of("tada_rust=");
    append_str(&mut s, level);
    s
}

} // verus!
