//! How command results are shown: the output style chosen from the flags and
//! the settings.
use vstd::prelude::*;
use vstd::string::*;

use crate::text::str_eq;

verus! {

#[derive(Debug, Clone, Copy, PartialEq, Eq, Structural)]
pub enum OutputMode {
    Rich,
    Plain,
    Json,
}

/// Both `--plain` and `--json` were given.
#[derive(Debug, Clone, Copy, PartialEq, Eq, Structural)]
pub struct ConflictingOutputFlags;

impl ConflictingOutputFlags {
    pub fn message(&self) -> (r: &'static str)
        ensures
            r@ == "Gunakan salah satu: --plain atau --json, tidak keduanya."@,
    {
        "Gunakan salah satu: --plain atau --json, tidak keduanya."
    }
}

/// The style that the flags ask for, else the one in the settings (plain or
/// json), else rich.
pub open spec fn output_mode_spec(plain: bool, json: bool, config_mode: Seq<char>) -> Result<
    OutputMode,
    ConflictingOutputFlags,
> {
    if plain && json {
        Err(ConflictingOutputFlags)
    } else if json {
        Ok(OutputMode::Json)
    } else if plain {
        Ok(OutputMode::Plain)
    } else if config_mode == "plain"@ {
        Ok(OutputMode::Plain)
    } else if config_mode == "json"@ {
        Ok(OutputMode::Json)
    } else {
        Ok(OutputMode::Rich)
    }
}

impl OutputMode {
    pub fn from_flags_and_config(plain: bool, json: bool, config_mode: &str) -> (r: Result<
        Self,
        ConflictingOutputFlags,
    >)
        ensures
            r == output_mode_spec(plain, json, config_mode@),
    {
        if plain && json {
            return Err(ConflictingOutputFlags);
        }
        if json {
            return Ok(OutputMode::Json);
        }
        if plain {
            return Ok(OutputMode::Plain);
        }
        if str_eq(config_mode, "plain") {
            Ok(OutputMode::Plain)
        } else if str_eq(config_mode, "json") {
            Ok(OutputMode::Json)
        } else {
            Ok(OutputMode::Rich)
        }
    }
}

/// The style of the output and whether it uses colour.
#[derive(Debug, Clone, Copy, PartialEq, Eq, Structural)]
pub struct Output {
    mode: OutputMode,
    color_enabled: bool,
}

impl Output {
    pub closed spec fn spec_mode(&self) -> OutputMode {
        self.mode
    }

    pub closed spec fn spec_color_enabled(&self) -> bool {
        self.color_enabled
    }

    pub fn new(mode: OutputMode, color_enabled: bool) -> (r: Self)
        ensures
            r.spec_mode() == mode,
            r.spec_color_enabled() == color_enabled,
    {
        Output { mode, color_enabled }
    }

    pub fn mode(&self) -> (r: OutputMode)
        ensures
            r == self.spec_mode(),
    {
        self.mode
    }

    pub fn color_enabled(&self) -> (r: bool)
        ensures
            r == self.spec_color_enabled(),
    {
        self.color_enabled
    }
}

} // verus!
