//! The settings of the speech synthesizer: the settings file, the two
//! environment variables that override it, and the defaults.

use crate::command::{copy_location, Location, Place};
use crate::text::{
    chars_of, find_char, first_index_of, first_index_of_bounds, range_is, string_of, trim,
    trim_range,
};
use vstd::prelude::*;
use vstd::string::StringExecFns;

verus! {

/// The settings file, looked for in the working directory.
pub const CONFIG_FILE: &'static str = "tts_config.txt";

/// The environment variable that names the synthesizer.
pub const PIPER_PATH_VAR: &'static str = "PIPER_PATH";

/// The environment variable that names the voice model.
pub const PIPER_MODEL_VAR: &'static str = "PIPER_MODEL";

/// What a settings file says. Of each key the last entry counts.
#[derive(Clone, PartialEq, Eq, Debug)]
pub struct FileSettings {
    pub piper_path: Option<String>,
    pub model_path: Option<String>,
    /// The value of the last `SPEED` entry, as written.
    pub speed: Option<String>,
}

/// What a `FileSettings` stands for.
pub struct Entries {
    pub piper_path: Option<Seq<char>>,
    pub model_path: Option<Seq<char>>,
    pub speed: Option<Seq<char>>,
}

/// The text that `s` holds, if it holds one.
pub open spec fn text_of(s: Option<String>) -> Option<Seq<char>> {
    match s {
        Some(text) => Some(text@),
        None => None,
    }
}

impl View for FileSettings {
    type V = Entries;

    open spec fn view(&self) -> Entries {
        Entries {
            piper_path: text_of(self.piper_path),
            model_path: text_of(self.model_path),
            speed: text_of(self.speed),
        }
    }
}

/// The entries of an empty settings file.
pub open spec fn no_entries() -> Entries {
    Entries { piper_path: None, model_path: None, speed: None }
}

/// `entries` after one more line of the file. A line is `KEY=value`, with
/// white space allowed around the line, the key and the value. Empty lines,
/// lines that begin with `#`, lines without `=` and unknown keys change
/// nothing.
pub open spec fn read_line(entries: Entries, line: Seq<char>) -> Entries {
    let t = trim(line);
    let eq = first_index_of(t, '=');
    if t.len() == 0 || t[0] == '#' || !(0 <= eq < t.len()) {
        entries
    } else {
        let key = trim(t.take(eq));
        let value = trim(t.skip(eq + 1));
        if key == "PIPER_PATH"@ {
            Entries { piper_path: Some(value), ..entries }
        } else if key == "PIPER_MODEL"@ {
            Entries { model_path: Some(value), ..entries }
        } else if key == "SPEED"@ {
            Entries { speed: Some(value), ..entries }
        } else {
            entries
        }
    }
}

/// `entries` after the lines of `text`, which end at each line feed.
pub open spec fn read_lines(entries: Entries, text: Seq<char>) -> Entries
    decreases text.len(),
{
    let end = first_index_of(text, '\n');
    if text.len() == 0 {
        entries
    } else if 0 <= end < text.len() {
        read_lines(read_line(entries, text.take(end)), text.skip(end + 1))
    } else {
        read_line(entries, text)
    }
}

/// The entries of the settings file whose content is `text`.
pub open spec fn entries_of(text: Seq<char>) -> Entries {
    read_lines(no_entries(), text)
}

/// Reads the line `chars[from..to]` into `settings`.
fn read_line_at(settings: &mut FileSettings, chars: &Vec<char>, from: usize, to: usize)
    requires
        from <= to <= chars.len(),
    ensures
        final(settings)@ == read_line(old(settings)@, chars@.subrange(from as int, to as int)),
{
    let (lo, hi) = trim_range(chars, from, to);
    let ghost t = chars@.subrange(lo as int, hi as int);
    if lo == hi || chars[lo] == '#' {
        return ;
    }
    let eq = find_char(chars, lo, hi, '=');
    proof {
        first_index_of_bounds(t, '=');
    }
    if eq == hi {
        return ;
    }
    let (key_lo, key_hi) = trim_range(chars, lo, eq);
    let (value_lo, value_hi) = trim_range(chars, eq + 1, hi);
    proof {
        assert(t.take(eq - lo) == chars@.subrange(lo as int, eq as int));
        assert(t.skip(eq - lo + 1) == chars@.subrange(eq + 1, hi as int));
    }
    let piper_key = chars_of("PIPER_PATH");
    let model_key = chars_of("PIPER_MODEL");
    let speed_key = chars_of("SPEED");
    if range_is(chars, key_lo, key_hi, &piper_key) {
        settings.piper_path = Some(string_of(chars, value_lo, value_hi));
    } else if range_is(chars, key_lo, key_hi, &model_key) {
        settings.model_path = Some(string_of(chars, value_lo, value_hi));
    } else if range_is(chars, key_lo, key_hi, &speed_key) {
        settings.speed = Some(string_of(chars, value_lo, value_hi));
    }
}

/// Reads a settings file from its content.
pub fn parse_config(content: &str) -> (settings: FileSettings)
    ensures
        settings@ == entries_of(content@),
{
    let chars = chars_of(content);
    let mut settings = FileSettings { piper_path: None, model_path: None, speed: None };
    let mut pos: usize = 0;
    assert(chars@.skip(0) == chars@);
    while pos < chars.len()
        invariant
            pos <= chars.len(),
            chars@ == content@,
            read_lines(settings@, chars@.skip(pos as int)) == entries_of(content@),
        decreases chars.len() - pos,
    {
        let ghost rest = chars@.skip(pos as int);
        let end = find_char(&chars, pos, chars.len(), '\n');
        proof {
            assert(chars@.subrange(pos as int, chars.len() as int) == rest);
            first_index_of_bounds(rest, '\n');
            assert(rest.take(end - pos) == chars@.subrange(pos as int, end as int));
        }
        read_line_at(&mut settings, &chars, pos, end);
        if end < chars.len() {
            assert(rest.skip(end - pos + 1) == chars@.skip(end + 1));
            pos = end + 1;
        } else {
            assert(rest.take(end - pos) == rest);
            assert(chars@.skip(end as int).len() == 0);
            pos = end;
        }
    }
    settings
}

/// The settings before the files they name have been looked for.
#[derive(Clone, PartialEq, Eq, Debug)]
pub struct Candidate {
    pub piper_path: Location,
    pub model_path: Location,
    pub speed: Option<String>,
}

/// What a `Candidate`, and a `NarratorConfig`, stands for.
pub struct Settings {
    pub piper_path: Place,
    pub model_path: Place,
    pub speed: Option<Seq<char>>,
}

impl View for Candidate {
    type V = Settings;

    open spec fn view(&self) -> Settings {
        Settings {
            piper_path: self.piper_path@,
            model_path: self.model_path@,
            speed: text_of(self.speed),
        }
    }
}

/// The place of a file: what the environment says, else what the settings
/// file says, else the file `fallback` in the working directory.
pub open spec fn choose_place(
    from_env: Option<Seq<char>>,
    from_file: Option<Seq<char>>,
    fallback: Seq<char>,
) -> Place {
    match (from_env, from_file) {
        (Some(path), _) => Place::Given(path),
        (None, Some(path)) => Place::Given(path),
        (None, None) => Place::InWorkingDir(fallback),
    }
}

/// The settings that a settings file and the environment give together.
pub open spec fn combined(
    file: Entries,
    env_piper: Option<Seq<char>>,
    env_model: Option<Seq<char>>,
) -> Settings {
    Settings {
        piper_path: choose_place(env_piper, file.piper_path, "piper.exe"@),
        model_path: choose_place(env_model, file.model_path, "piper-model.onnx"@),
        speed: file.speed,
    }
}

fn place_of(from_env: Option<String>, from_file: Option<String>, fallback: &str) -> (location:
    Location)
    ensures
        location@ == choose_place(text_of(from_env), text_of(from_file), fallback@),
{
    match from_env {
        Some(path) => Location::Given(path),
        None => match from_file {
            Some(path) => Location::Given(path),
            None => Location::InWorkingDir(String::from_str(fallback)),
        },
    }
}

/// Puts together what the settings file says (`file`; empty where there is no
/// file) and the values of the two environment variables (`None` where one is
/// not set).
pub fn resolve(file: FileSettings, env_piper: Option<String>, env_model: Option<String>) -> (found:
    Candidate)
    ensures
        found@ == combined(file@, text_of(env_piper), text_of(env_model)),
{
    Candidate {
        piper_path: place_of(env_piper, file.piper_path, "piper.exe"),
        model_path: place_of(env_model, file.model_path, "piper-model.onnx"),
        speed: file.speed,
    }
}

/// Settings whose two files exist.
#[derive(Clone, PartialEq, Eq, Debug)]
pub struct NarratorConfig {
    pub piper_path: Location,
    pub model_path: Location,
    /// The speaking speed as the settings file has it. The speed is 1 where
    /// this is `None` or is no number.
    pub speed: Option<String>,
}

impl View for NarratorConfig {
    type V = Settings;

    open spec fn view(&self) -> Settings {
        Settings {
            piper_path: self.piper_path@,
            model_path: self.model_path@,
            speed: text_of(self.speed),
        }
    }
}

/// Why there are no settings.
#[derive(Clone, PartialEq, Eq, Debug)]
pub enum ConfigError {
    /// There is no synthesizer at this place.
    PiperNotFound(Location),
    /// There is no voice model at this place.
    ModelNotFound(Location),
}

/// What a `ConfigError` stands for.
pub enum Missing {
    Piper(Place),
    Model(Place),
}

impl View for ConfigError {
    type V = Missing;

    open spec fn view(&self) -> Missing {
        match self {
            ConfigError::PiperNotFound(location) => Missing::Piper(location@),
            ConfigError::ModelNotFound(location) => Missing::Model(location@),
        }
    }
}

impl ConfigError {
    /// The place where the file was looked for.
    pub fn location(&self) -> (location: &Location)
        ensures
            self@ == Missing::Piper(location@) || self@ == Missing::Model(location@),
    {
        match self {
            ConfigError::PiperNotFound(location) => location,
            ConfigError::ModelNotFound(location) => location,
        }
    }

    /// What the error says, where `path` is how the place is shown.
    pub open spec fn text(&self, path: Seq<char>) -> Seq<char> {
        match self {
            ConfigError::PiperNotFound(_) => "Piper executable not found at '"@ + path
                + "'. Please download Piper from https://github.com/OHF-Voice/piper1-gpl/releases and set PIPER_PATH environment variable or add PIPER_PATH to tts_config.txt"@,
            ConfigError::ModelNotFound(_) => "Piper model not found at '"@ + path
                + "'. Please download a model from https://huggingface.co/rhasspy/piper-voices and set PIPER_MODEL environment variable or add PIPER_MODEL to tts_config.txt"@,
        }
    }

    /// What the error says: `path` is the path of `location()` as the caller
    /// shows it.
    pub fn message(&self, path: &str) -> (text: String)
        ensures
            text@ == self.text(path@),
    {
        match self {
            ConfigError::PiperNotFound(_) => {
                let mut text = String::from_str("Piper executable not found at '");
                text.append(path);
                text.append(
                    "'. Please download Piper from https://github.com/OHF-Voice/piper1-gpl/releases and set PIPER_PATH environment variable or add PIPER_PATH to tts_config.txt",
                );
                text
            },
            ConfigError::ModelNotFound(_) => {
                let mut text = String::from_str("Piper model not found at '");
                text.append(path);
                text.append(
                    "'. Please download a model from https://huggingface.co/rhasspy/piper-voices and set PIPER_MODEL environment variable or add PIPER_MODEL to tts_config.txt",
                );
                text
            },
        }
    }
}

impl NarratorConfig {
    /// Accepts `candidate` if both its files exist: `piper_found` and
    /// `model_found` say whether a file is at `candidate.piper_path` and at
    /// `candidate.model_path`. The synthesizer is looked at first.
    pub fn load(candidate: Candidate, piper_found: bool, model_found: bool) -> (loaded: Result<
        NarratorConfig,
        ConfigError,
    >)
        ensures
            piper_found && model_found ==> (loaded matches Ok(config) && config@ == candidate@),
            !piper_found ==> (loaded matches Err(e) && e@ == Missing::Piper(
                candidate@.piper_path,
            )),
            piper_found && !model_found ==> (loaded matches Err(e) && e@ == Missing::Model(
                candidate@.model_path,
            )),
    {
        if !piper_found {
            Err(ConfigError::PiperNotFound(candidate.piper_path))
        } else if !model_found {
            Err(ConfigError::ModelNotFound(candidate.model_path))
        } else {
            Ok(
                NarratorConfig {
                    piper_path: candidate.piper_path,
                    model_path: candidate.model_path,
                    speed: candidate.speed,
                },
            )
        }
    }

    /// A second `NarratorConfig` with the same settings.
    pub fn duplicate(&self) -> (copy: NarratorConfig)
        ensures
            copy@ == self@,
    {
        NarratorConfig {
            piper_path: copy_location(&self.piper_path),
            model_path: copy_location(&self.model_path),
            speed: match &self.speed {
                Some(text) => Some(text.clone()),
                None => None,
            },
        }
    }
}

} // verus!
