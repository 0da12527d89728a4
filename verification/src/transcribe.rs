//! Speech to text by an outside recognizer: which program to run, with which
//! words, and what its output means.

use crate::command::{text_arg, Arg, Command, Location, Place, Word};
use crate::text::{
    chars_of, code_text, push_code, remove_all, remove_pattern, string_of, sub_vec, trim,
    trim_range,
};
use vstd::prelude::*;
use vstd::string::StringExecFns;

verus! {

/// The model that the tool looks for in the working directory.
pub const MODEL_FILE: &'static str = "ggml-large-v3-turbo.bin";

/// The sound file that a recording is saved to, in the working directory,
/// for the recognizer to read.
pub const RECORDING_FILE: &'static str = "temp_input.wav";

/// The names under which the recognizer is looked for in the working
/// directory, the preferred one first.
pub open spec fn executable_names() -> Seq<Seq<char>> {
    seq!["whisper-cli.exe"@, "whisper.exe"@, "main.exe"@]
}

/// The hint on the languages spoken that the recognizer is given.
pub open spec fn prompt() -> Seq<char> {
    "Multilingual transcription. Transcrição multilíngue. English and Portuguese text. Texto em inglês e português."@
}

/// The position of the first `true` among the first `limit` entries of
/// `found`, if there is one.
pub open spec fn first_found(found: Seq<bool>, limit: int) -> Option<int>
    decreases limit,
{
    if limit <= 0 {
        None
    } else {
        match first_found(found, limit - 1) {
            Some(i) => Some(i),
            None => if limit - 1 < found.len() && found[limit - 1] {
                Some(limit - 1)
            } else {
                None
            },
        }
    }
}

/// `first_found` gives the least position below `limit` that holds `true`,
/// and nothing exactly when there is none.
pub proof fn first_found_is_least(found: Seq<bool>, limit: int)
    ensures
        match first_found(found, limit) {
            Some(i) => 0 <= i < limit && i < found.len() && found[i] && forall|k: int|
                0 <= k < i ==> !(#[trigger] found[k]),
            None => forall|k: int| 0 <= k < limit && k < found.len() ==> !(#[trigger] found[k]),
        },
    decreases limit,
{
    if limit > 0 {
        first_found_is_least(found, limit - 1);
    }
}

/// The recognizer's words for the sound file `audio` and the model `model`,
/// both in the working directory: plain text, no time stamps, the language
/// found out by the recognizer.
pub open spec fn arguments_of(model: Seq<char>, audio: Seq<char>) -> Seq<Word> {
    seq![
        Word::Text("-m"@),
        Word::Path(Place::InWorkingDir(model)),
        Word::Text("-f"@),
        Word::Path(Place::InWorkingDir(audio)),
        Word::Text("--output-txt"@),
        Word::Text("-nt"@),
        Word::Text("-l"@),
        Word::Text("auto"@),
        Word::Text("--prompt"@),
        Word::Text(prompt()),
    ]
}

/// The text in what the recognizer wrote: trimmed, then without the marks
/// that the recognizer puts where nobody speaks, then trimmed again.
pub open spec fn transcript_of(output: Seq<char>) -> Seq<char> {
    trim(
        remove_all(
            remove_all(remove_all(trim(output), "[BLANK_AUDIO]"@), "[MÚSICA]"@),
            "[MÚSICA DE FUNDO]"@,
        ),
    )
}

/// Why there is no transcript.
#[derive(Clone, Copy, PartialEq, Eq, Structural, Debug)]
pub enum TranscribeError {
    /// The recognizer is under none of its names in the working directory.
    ExecutableNotFound,
    /// The recognizer ended with a failure.
    ProcessFailed { code: Option<i32> },
}

impl TranscribeError {
    /// What the error says.
    pub open spec fn text(&self) -> Seq<char> {
        match self {
            TranscribeError::ExecutableNotFound => "Whisper executable not found. Please download 'whisper-cli.exe' from whisper.cpp releases and place it in the project root."@,
            TranscribeError::ProcessFailed { code } =>
                "Whisper process execution failed (exit code: "@ + code_text(*code) + ")"@,
        }
    }

    /// What the error says.
    pub fn message(&self) -> (text: String)
        ensures
            text@ == self.text(),
    {
        match self {
            TranscribeError::ExecutableNotFound => String::from_str(
                "Whisper executable not found. Please download 'whisper-cli.exe' from whisper.cpp releases and place it in the project root.",
            ),
            TranscribeError::ProcessFailed { code } => {
                let mut text = String::from_str("Whisper process execution failed (exit code: ");
                push_code(&mut text, *code);
                text.append(")");
                text
            },
        }
    }
}

/// The recognizer's names.
pub fn candidate_names() -> (names: Vec<String>)
    ensures
        names@.len() == executable_names().len(),
        forall|i: int| 0 <= i < names@.len() ==> names@[i]@ == executable_names()[i],
{
    let mut names: Vec<String> = Vec::new();
    names.push(String::from_str("whisper-cli.exe"));
    names.push(String::from_str("whisper.exe"));
    names.push(String::from_str("main.exe"));
    names
}

/// Takes the marks and the white space around the text out of what the
/// recognizer wrote.
pub fn clean_transcript(output: &str) -> (text: String)
    ensures
        text@ == transcript_of(output@),
{
    let chars = chars_of(output);
    let (lo, hi) = trim_range(&chars, 0, chars.len());
    assert(chars@.subrange(0, chars.len() as int) == chars@);
    let spoken = sub_vec(&chars, lo, hi);
    let spoken = remove_pattern(&spoken, &chars_of("[BLANK_AUDIO]"));
    let spoken = remove_pattern(&spoken, &chars_of("[MÚSICA]"));
    let spoken = remove_pattern(&spoken, &chars_of("[MÚSICA DE FUNDO]"));
    let (lo, hi) = trim_range(&spoken, 0, spoken.len());
    assert(spoken@.subrange(0, spoken.len() as int) == spoken@);
    string_of(&spoken, lo, hi)
}

/// A recognizer that was found, and its model.
pub struct Transcriber {
    executable: String,
    model_path: String,
}

impl Transcriber {
    /// The recognizer's place.
    pub closed spec fn executable(&self) -> Place {
        Place::InWorkingDir(self.executable@)
    }

    /// The model's place.
    pub closed spec fn model(&self) -> Place {
        Place::InWorkingDir(self.model_path@)
    }

    /// Picks the recognizer: `found[i]` says whether a file of the `i`-th of
    /// the recognizer's names is in the working directory (a missing entry
    /// says no), and the first name that is there wins. `model_path` is taken
    /// as it is, relative to the working directory.
    pub fn new(model_path: &str, found: &[bool]) -> (made: Result<Transcriber, TranscribeError>)
        ensures
            match first_found(found@, 3) {
                Some(i) => made matches Ok(t) && t.executable() == Place::InWorkingDir(
                    executable_names()[i],
                ) && t.model() == Place::InWorkingDir(model_path@),
                None => made == Err::<Transcriber, TranscribeError>(
                    TranscribeError::ExecutableNotFound,
                ),
            },
    {
        let names = candidate_names();
        let mut i: usize = 0;
        while i < 3
            invariant
                i <= 3,
                names@.len() == 3,
                forall|k: int| 0 <= k < 3 ==> names@[k]@ == executable_names()[k],
                first_found(found@, i as int) is None,
            decreases 3 - i,
        {
            if i < found.len() && found[i] {
                proof {
                    reveal_with_fuel(first_found, 4);
                }
                return Ok(
                    Transcriber {
                        executable: names[i].clone(),
                        model_path: String::from_str(model_path),
                    },
                );
            }
            i += 1;
        }
        Err(TranscribeError::ExecutableNotFound)
    }

    /// The recognizer's file name.
    pub fn executable_name(&self) -> (name: &str)
        ensures
            self.executable() == Place::InWorkingDir(name@),
    {
        self.executable.as_str()
    }

    /// The model's path, as `new` was given it.
    pub fn model_path(&self) -> (path: &str)
        ensures
            self.model() == Place::InWorkingDir(path@),
    {
        self.model_path.as_str()
    }

    /// The recognizer run that transcribes the sound file `audio_filename`,
    /// which is in the working directory.
    pub fn command(&self, audio_filename: &str) -> (command: Command)
        ensures
            command@.program == Word::Path(self.executable()),
            command@.args == arguments_of(self.model()->InWorkingDir_0, audio_filename@),
    {
        let mut args: Vec<Arg> = Vec::new();
        args.push(text_arg("-m"));
        args.push(Arg::Path(Location::InWorkingDir(self.model_path.clone())));
        args.push(text_arg("-f"));
        args.push(Arg::Path(Location::InWorkingDir(String::from_str(audio_filename))));
        args.push(text_arg("--output-txt"));
        args.push(text_arg("-nt"));
        args.push(text_arg("-l"));
        args.push(text_arg("auto"));
        args.push(text_arg("--prompt"));
        args.push(
            text_arg(
                "Multilingual transcription. Transcrição multilíngue. English and Portuguese text. Texto em inglês e português.",
            ),
        );
        let command = Command {
            program: Arg::Path(Location::InWorkingDir(self.executable.clone())),
            args,
        };
        assert(command@.args == arguments_of(self.model_path@, audio_filename@));
        command
    }

    /// The transcript, from how the recognizer run ended: `success` and
    /// `code` are its exit status, `stdout` is what it wrote.
    pub fn transcribe(&self, success: bool, code: Option<i32>, stdout: &str) -> (heard: Result<
        String,
        TranscribeError,
    >)
        ensures
            success ==> (heard matches Ok(text) && text@ == transcript_of(stdout@)),
            !success ==> heard == Err::<String, TranscribeError>(
                TranscribeError::ProcessFailed { code },
            ),
    {
        if !success {
            return Err(TranscribeError::ProcessFailed { code });
        }
        Ok(clean_transcript(stdout))
    }
}

} // verus!
