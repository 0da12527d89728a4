//! Reading a text aloud: one synthesizer run that writes a sound file, then
//! one player process, which is the only process kept track of. Speaking
//! again, or stopping, ends the player that is still running.

use crate::command::{
    path_arg, temp_file_arg, text_arg, Arg, Command, Invocation, Location, Place, Platform, Word,
};
use crate::config::{NarratorConfig, Settings};
use crate::text::{code_text, is_blank, is_blank_text, push_code, trim, trimmed};
use vstd::prelude::*;
use vstd::string::StringExecFns;

verus! {

/// The sound file that the synthesizer writes and the player reads, in the
/// directory for temporary files.
pub const OUTPUT_FILE: &'static str = "tts_output.wav";

/// What asking a child process for its exit status gave.
#[derive(Clone, Copy, PartialEq, Eq, Structural, Debug)]
pub enum ChildState {
    /// It has not exited yet.
    Running,
    /// It has exited.
    Exited,
    /// The question failed.
    Unknown,
}

/// How to end a player.
#[derive(Clone, PartialEq, Eq, Debug)]
pub struct StopPlan {
    /// The process to end and then to wait for.
    pub pid: u32,
    /// The command that ends it together with its children; where there is
    /// none, the process is killed directly. Whether the command succeeds
    /// does not matter.
    pub kill_with: Option<Command>,
}

/// What a `StopPlan` stands for.
pub struct Stop {
    pub pid: u32,
    pub kill_with: Option<Invocation>,
}

impl View for StopPlan {
    type V = Stop;

    open spec fn view(&self) -> Stop {
        Stop {
            pid: self.pid,
            kill_with: match self.kill_with {
                Some(command) => Some(command@),
                None => None,
            },
        }
    }
}

/// What is to be done to speak a text.
#[derive(Clone, PartialEq, Eq, Debug)]
pub struct SpeakPlan {
    /// The player to end first.
    pub stop_first: Option<StopPlan>,
    /// The synthesizer run. It is waited for, and how it ended goes to
    /// `synthesis_outcome`, which hands out the player after a run that
    /// succeeded.
    pub synthesis: Command,
    /// What the synthesizer reads from its standard input.
    pub input: String,
}

/// What a `SpeakPlan` stands for.
pub struct Speech {
    pub stop_first: Option<Stop>,
    pub synthesis: Invocation,
    pub input: Seq<char>,
}

impl View for SpeakPlan {
    type V = Speech;

    open spec fn view(&self) -> Speech {
        Speech {
            stop_first: match self.stop_first {
                Some(plan) => Some(plan@),
                None => None,
            },
            synthesis: self.synthesis@,
            input: self.input@,
        }
    }
}

/// Why nothing is spoken.
#[derive(Clone, PartialEq, Eq, Debug)]
pub enum NarrateError {
    /// The text is empty or white space only.
    NoText,
    /// The synthesizer ended with a failure. The two outputs are trimmed.
    PiperFailed { code: Option<i32>, stdout: String, stderr: String },
}

/// What a `NarrateError` stands for.
pub enum Failure {
    NoText,
    PiperFailed { code: Option<i32>, stdout: Seq<char>, stderr: Seq<char> },
}

impl View for NarrateError {
    type V = Failure;

    open spec fn view(&self) -> Failure {
        match self {
            NarrateError::NoText => Failure::NoText,
            NarrateError::PiperFailed { code, stdout, stderr } => Failure::PiperFailed {
                code: *code,
                stdout: stdout@,
                stderr: stderr@,
            },
        }
    }
}

impl NarrateError {
    /// What the error says.
    pub open spec fn text(&self) -> Seq<char> {
        match self {
            NarrateError::NoText => "No text to speak"@,
            NarrateError::PiperFailed { code, stdout, stderr } => "Piper failed (exit code "@
                + code_text(*code) + "): stdout='"@ + stdout@ + "' stderr='"@ + stderr@ + "'"@,
        }
    }

    /// What the error says.
    pub fn message(&self) -> (text: String)
        ensures
            text@ == self.text(),
    {
        match self {
            NarrateError::NoText => String::from_str("No text to speak"),
            NarrateError::PiperFailed { code, stdout, stderr } => {
                let mut text = String::from_str("Piper failed (exit code ");
                push_code(&mut text, *code);
                text.append("): stdout='");
                text.append(stdout.as_str());
                text.append("' stderr='");
                text.append(stderr.as_str());
                text.append("'");
                text
            },
        }
    }
}

/// How the player `pid` is ended. On Windows a command ends it with its
/// children.
pub open spec fn stop_of(pid: u32, platform: Platform) -> Stop {
    Stop {
        pid,
        kill_with: match platform {
            Platform::Windows => Some(
                Invocation {
                    program: Word::Text("taskkill"@),
                    args: seq![
                        Word::Text("/F"@),
                        Word::Text("/T"@),
                        Word::Text("/PID"@),
                        Word::Number(pid),
                    ],
                },
            ),
            _ => None,
        },
    }
}

/// The sound file.
pub open spec fn output_place() -> Place {
    Place::InTempDir("tts_output.wav"@)
}

/// The synthesizer run. On Windows it is also told the speaking speed.
pub open spec fn synthesis_of(settings: Settings, platform: Platform) -> Invocation {
    Invocation {
        program: Word::Path(settings.piper_path),
        args: match platform {
            Platform::Windows => seq![
                Word::Text("--model"@),
                Word::Path(settings.model_path),
                Word::Text("--length-scale"@),
                Word::Speed,
                Word::Text("--output_file"@),
                Word::Path(output_place()),
            ],
            _ => seq![
                Word::Text("--model"@),
                Word::Path(settings.model_path),
                Word::Text("--output_file"@),
                Word::Path(output_place()),
            ],
        },
    }
}

/// The player for the sound file.
pub open spec fn player_of(platform: Platform) -> Invocation {
    match platform {
        Platform::Windows => Invocation {
            program: Word::Text("powershell"@),
            args: seq![
                Word::Text("-NoProfile"@),
                Word::Text("-WindowStyle"@),
                Word::Text("Hidden"@),
                Word::Text("-Command"@),
                Word::Embedded {
                    before: "(New-Object Media.SoundPlayer '"@,
                    path: output_place(),
                    after: "').PlaySync()"@,
                },
            ],
        },
        Platform::MacOs => Invocation {
            program: Word::Text("afplay"@),
            args: seq![Word::Path(output_place())],
        },
        Platform::Other => Invocation {
            program: Word::Text("aplay"@),
            args: seq![Word::Path(output_place())],
        },
    }
}

/// What speaking `text` takes while the player `playing` is kept track of.
pub open spec fn speech_of(
    settings: Settings,
    playing: Option<u32>,
    text: Seq<char>,
    platform: Platform,
) -> Speech {
    Speech {
        stop_first: match playing {
            Some(pid) => Some(stop_of(pid, platform)),
            None => None,
        },
        synthesis: synthesis_of(settings, platform),
        input: text,
    }
}

/// What the end of a synthesizer run means: after a run that succeeded the
/// player is to be started; a run that did not succeed is a failure that
/// carries its exit code and what it wrote, trimmed.
pub open spec fn outcome_of(
    platform: Platform,
    success: bool,
    code: Option<i32>,
    stdout: Seq<char>,
    stderr: Seq<char>,
) -> Result<Invocation, Failure> {
    if success {
        Ok(player_of(platform))
    } else {
        Err(Failure::PiperFailed { code, stdout: trim(stdout), stderr: trim(stderr) })
    }
}

fn stop_plan(pid: u32, platform: Platform) -> (plan: StopPlan)
    ensures
        plan@ == stop_of(pid, platform),
{
    match platform {
        Platform::Windows => {
            let mut args: Vec<Arg> = Vec::new();
            args.push(text_arg("/F"));
            args.push(text_arg("/T"));
            args.push(text_arg("/PID"));
            args.push(Arg::Number(pid));
            let command = Command { program: text_arg("taskkill"), args };
            assert(command@.args == stop_of(pid, platform).kill_with->0.args);
            StopPlan { pid, kill_with: Some(command) }
        },
        _ => StopPlan { pid, kill_with: None },
    }
}

fn synthesis_command(config: &NarratorConfig, platform: Platform) -> (command: Command)
    ensures
        command@ == synthesis_of(config@, platform),
{
    let mut args: Vec<Arg> = Vec::new();
    args.push(text_arg("--model"));
    args.push(path_arg(&config.model_path));
    match platform {
        Platform::Windows => {
            args.push(text_arg("--length-scale"));
            args.push(Arg::Speed);
        },
        _ => {},
    }
    args.push(text_arg("--output_file"));
    args.push(temp_file_arg(OUTPUT_FILE));
    let command = Command { program: path_arg(&config.piper_path), args };
    assert(command@.args == synthesis_of(config@, platform).args);
    command
}

fn player_command(platform: Platform) -> (command: Command)
    ensures
        command@ == player_of(platform),
{
    let mut args: Vec<Arg> = Vec::new();
    let program = match platform {
        Platform::Windows => {
            args.push(text_arg("-NoProfile"));
            args.push(text_arg("-WindowStyle"));
            args.push(text_arg("Hidden"));
            args.push(text_arg("-Command"));
            args.push(
                Arg::Embedded {
                    before: String::from_str("(New-Object Media.SoundPlayer '"),
                    path: Location::InTempDir(String::from_str(OUTPUT_FILE)),
                    after: String::from_str("').PlaySync()"),
                },
            );
            text_arg("powershell")
        },
        Platform::MacOs => {
            args.push(temp_file_arg(OUTPUT_FILE));
            text_arg("afplay")
        },
        Platform::Other => {
            args.push(temp_file_arg(OUTPUT_FILE));
            text_arg("aplay")
        },
    };
    let command = Command { program, args };
    assert(command@.args == player_of(platform).args);
    command
}

/// Judges a synthesizer run that has ended: `success` and `code` are its exit
/// status, `stdout` and `stderr` what it wrote. After a run that succeeded it
/// hands out the player, which is started and not waited for; after any other
/// run there is no player to start.
pub fn synthesis_outcome(
    platform: Platform,
    success: bool,
    code: Option<i32>,
    stdout: &str,
    stderr: &str,
) -> (outcome: Result<Command, NarrateError>)
    ensures
        match outcome {
            Ok(player) => outcome_of(platform, success, code, stdout@, stderr@) == Ok::<
                Invocation,
                Failure,
            >(player@),
            Err(e) => outcome_of(platform, success, code, stdout@, stderr@) == Err::<
                Invocation,
                Failure,
            >(e@),
        },
{
    if success {
        Ok(player_command(platform))
    } else {
        Err(NarrateError::PiperFailed { code, stdout: trimmed(stdout), stderr: trimmed(stderr) })
    }
}

/// Speaks texts one at a time.
pub struct Narrator {
    config: NarratorConfig,
    current_process: Option<u32>,
}

impl Narrator {
    /// The settings.
    pub closed spec fn settings(&self) -> Settings {
        self.config@
    }

    /// The player that is kept track of.
    pub closed spec fn playing(&self) -> Option<u32> {
        self.current_process
    }

    /// A narrator that plays nothing yet.
    pub fn new(config: NarratorConfig) -> (narrator: Narrator)
        ensures
            narrator.settings() == config@,
            narrator.playing() is None,
    {
        Narrator { config, current_process: None }
    }

    /// The settings.
    pub fn config(&self) -> (config: &NarratorConfig)
        ensures
            config@ == self.settings(),
    {
        &self.config
    }

    /// The player that is kept track of. `is_playing` wants to know its
    /// state.
    pub fn current_process(&self) -> (pid: Option<u32>)
        ensures
            pid == self.playing(),
    {
        self.current_process
    }

    /// Tells whether a text is being played: a player is kept track of and
    /// `state`, the state of that player, is `Running`. A player in any other
    /// state is forgotten. Without a player `state` is not looked at.
    pub fn is_playing(&mut self, state: ChildState) -> (playing: bool)
        ensures
            playing == (old(self).playing() is Some && state == ChildState::Running),
            final(self).playing() == if playing {
                old(self).playing()
            } else {
                None
            },
            final(self).settings() == old(self).settings(),
    {
        match self.current_process {
            Some(_) => match state {
                ChildState::Running => true,
                _ => {
                    self.current_process = None;
                    false
                },
            },
            None => false,
        }
    }

    /// Forgets the player and says how to end it, if there is one.
    pub fn stop(&mut self, platform: Platform) -> (plan: Option<StopPlan>)
        ensures
            final(self).playing() is None,
            final(self).settings() == old(self).settings(),
            match old(self).playing() {
                Some(pid) => plan matches Some(p) && p@ == stop_of(pid, platform),
                None => plan is None,
            },
    {
        match self.current_process {
            Some(pid) => {
                self.current_process = None;
                Some(stop_plan(pid, platform))
            },
            None => None,
        }
    }

    /// Plans speaking `text`. A blank text is refused and changes nothing.
    /// Otherwise the player is forgotten and the plan begins with ending it;
    /// once the player that `synthesis_outcome` hands out runs,
    /// `playback_started` takes it up.
    pub fn speak(&mut self, text: &str, platform: Platform) -> (planned: Result<
        SpeakPlan,
        NarrateError,
    >)
        ensures
            final(self).settings() == old(self).settings(),
            is_blank(text@) ==> planned == Err::<SpeakPlan, NarrateError>(NarrateError::NoText)
                && final(self).playing() == old(self).playing(),
            !is_blank(text@) ==> final(self).playing() is None && (planned matches Ok(plan)
                && plan@ == speech_of(old(self).settings(), old(self).playing(), text@, platform)),
    {
        if is_blank_text(text) {
            return Err(NarrateError::NoText);
        }
        let stop_first = self.stop(platform);
        Ok(
            SpeakPlan {
                stop_first,
                synthesis: synthesis_command(&self.config, platform),
                input: String::from_str(text),
            },
        )
    }

    /// Takes up the player `pid`, which was started after the last plan's
    /// synthesizer run.
    pub fn playback_started(&mut self, pid: u32)
        ensures
            final(self).playing() == Some(pid),
            final(self).settings() == old(self).settings(),
    {
        self.current_process = Some(pid);
    }
}

} // verus!
