use voice_hotkeys::command::{Arg, Command, Location, Platform};
use voice_hotkeys::config::NarratorConfig;
use voice_hotkeys::narrate::{
    synthesis_outcome, ChildState, NarrateError, Narrator, SpeakPlan, StopPlan, OUTPUT_FILE,
};

fn word(s: &str) -> Arg {
    Arg::Text(s.to_string())
}

fn sound_file() -> Location {
    Location::InTempDir("tts_output.wav".to_string())
}

fn voice() -> NarratorConfig {
    NarratorConfig {
        piper_path: Location::Given("/opt/piper/piper".to_string()),
        model_path: Location::InWorkingDir("piper-model.onnx".to_string()),
        speed: Some("1.2".to_string()),
    }
}

fn taskkill(pid: u32) -> Command {
    Command {
        program: word("taskkill"),
        args: vec![word("/F"), word("/T"), word("/PID"), Arg::Number(pid)],
    }
}

#[test]
fn sound_file_name() {
    assert_eq!(OUTPUT_FILE, "tts_output.wav");
}

#[test]
fn a_new_narrator_plays_nothing() {
    let mut narrator = Narrator::new(voice());
    assert_eq!(narrator.current_process(), None);
    assert_eq!(narrator.config(), &voice());
    assert!(!narrator.is_playing(ChildState::Running));
    assert!(!narrator.is_playing(ChildState::Exited));
    assert_eq!(narrator.stop(Platform::Other), None);
}

#[test]
fn a_running_player_is_playing_and_stays() {
    let mut narrator = Narrator::new(voice());
    narrator.playback_started(41);
    assert_eq!(narrator.current_process(), Some(41));
    assert!(narrator.is_playing(ChildState::Running));
    assert_eq!(narrator.current_process(), Some(41));
}

#[test]
fn a_player_that_ended_is_forgotten() {
    let mut narrator = Narrator::new(voice());
    narrator.playback_started(41);
    assert!(!narrator.is_playing(ChildState::Exited));
    assert_eq!(narrator.current_process(), None);
    // it stays forgotten, whatever is reported next
    assert!(!narrator.is_playing(ChildState::Running));
}

#[test]
fn a_player_that_cannot_be_asked_is_forgotten() {
    let mut narrator = Narrator::new(voice());
    narrator.playback_started(7);
    assert!(!narrator.is_playing(ChildState::Unknown));
    assert_eq!(narrator.current_process(), None);
}

#[test]
fn stop_kills_the_player_directly_off_windows() {
    for platform in [Platform::Other, Platform::MacOs] {
        let mut narrator = Narrator::new(voice());
        narrator.playback_started(1234);
        assert_eq!(narrator.stop(platform), Some(StopPlan { pid: 1234, kill_with: None }));
        assert_eq!(narrator.current_process(), None);
        assert_eq!(narrator.stop(platform), None);
    }
}

#[test]
fn stop_ends_the_process_tree_on_windows() {
    let mut narrator = Narrator::new(voice());
    narrator.playback_started(1234);
    assert_eq!(
        narrator.stop(Platform::Windows),
        Some(StopPlan { pid: 1234, kill_with: Some(taskkill(1234)) })
    );
    assert_eq!(narrator.current_process(), None);
}

#[test]
fn blank_text_is_refused_and_the_player_goes_on() {
    for text in ["", "   ", "\n\t\r ", "\u{a0}\u{3000}"] {
        let mut narrator = Narrator::new(voice());
        narrator.playback_started(9);
        assert_eq!(narrator.speak(text, Platform::Other), Err(NarrateError::NoText));
        assert_eq!(narrator.current_process(), Some(9));
    }
}

#[test]
fn speaking_on_linux() {
    let mut narrator = Narrator::new(voice());
    let plan = narrator.speak(" Hello there.\n", Platform::Other);
    assert_eq!(
        plan,
        Ok(SpeakPlan {
            stop_first: None,
            synthesis: Command {
                program: Arg::Path(Location::Given("/opt/piper/piper".to_string())),
                args: vec![
                    word("--model"),
                    Arg::Path(Location::InWorkingDir("piper-model.onnx".to_string())),
                    word("--output_file"),
                    Arg::Path(sound_file()),
                ],
            },
            input: " Hello there.\n".to_string(),
        })
    );
    assert_eq!(narrator.current_process(), None);
}

#[test]
fn speaking_on_macos_runs_the_synthesizer_as_on_linux() {
    let mut mac = Narrator::new(voice());
    let mut linux = Narrator::new(voice());
    assert_eq!(mac.speak("x", Platform::MacOs), linux.speak("x", Platform::Other));
}

#[test]
fn each_platform_has_its_player() {
    assert_eq!(
        synthesis_outcome(Platform::Other, true, Some(0), "", ""),
        Ok(Command { program: word("aplay"), args: vec![Arg::Path(sound_file())] })
    );
    assert_eq!(
        synthesis_outcome(Platform::MacOs, true, Some(0), "written", "warned"),
        Ok(Command { program: word("afplay"), args: vec![Arg::Path(sound_file())] })
    );
    assert_eq!(
        synthesis_outcome(Platform::Windows, true, None, "", ""),
        Ok(Command {
            program: word("powershell"),
            args: vec![
                word("-NoProfile"),
                word("-WindowStyle"),
                word("Hidden"),
                word("-Command"),
                Arg::Embedded {
                    before: "(New-Object Media.SoundPlayer '".to_string(),
                    path: sound_file(),
                    after: "').PlaySync()".to_string(),
                },
            ],
        })
    );
}

#[test]
fn speaking_on_windows() {
    let mut narrator = Narrator::new(voice());
    let plan = narrator.speak("x", Platform::Windows).unwrap();
    assert_eq!(
        plan.synthesis,
        Command {
            program: Arg::Path(Location::Given("/opt/piper/piper".to_string())),
            args: vec![
                word("--model"),
                Arg::Path(Location::InWorkingDir("piper-model.onnx".to_string())),
                word("--length-scale"),
                Arg::Speed,
                word("--output_file"),
                Arg::Path(sound_file()),
            ],
        }
    );
}

#[test]
fn speaking_again_ends_the_player_first() {
    let mut narrator = Narrator::new(voice());
    narrator.playback_started(77);
    let plan = narrator.speak("again", Platform::Other).unwrap();
    assert_eq!(plan.stop_first, Some(StopPlan { pid: 77, kill_with: None }));
    assert_eq!(narrator.current_process(), None);
    narrator.playback_started(78);
    let plan = narrator.speak("and again", Platform::Windows).unwrap();
    assert_eq!(plan.stop_first, Some(StopPlan { pid: 78, kill_with: Some(taskkill(78)) }));
}

#[test]
fn a_failed_synthesis_is_reported_on_every_platform() {
    for platform in [Platform::Windows, Platform::MacOs, Platform::Other] {
        assert_eq!(
            synthesis_outcome(platform, false, Some(3), " out \n", "\terr"),
            Err(NarrateError::PiperFailed {
                code: Some(3),
                stdout: "out".to_string(),
                stderr: "err".to_string(),
            })
        );
        assert_eq!(
            synthesis_outcome(platform, false, None, "", ""),
            Err(NarrateError::PiperFailed {
                code: None,
                stdout: String::new(),
                stderr: String::new(),
            })
        );
        assert_eq!(
            synthesis_outcome(platform, false, Some(0), "x", ""),
            Err(NarrateError::PiperFailed {
                code: Some(0),
                stdout: "x".to_string(),
                stderr: String::new(),
            })
        );
    }
}

#[test]
fn after_a_plan_no_player_is_tracked_until_one_is_reported() {
    // a synthesis that fails leaves it so: the player is never started
    let mut narrator = Narrator::new(voice());
    narrator.playback_started(5);
    let plan = narrator.speak("text", Platform::Other);
    assert!(plan.is_ok());
    assert!(synthesis_outcome(Platform::Other, false, Some(1), "", "no model").is_err());
    assert_eq!(narrator.current_process(), None);
    assert!(!narrator.is_playing(ChildState::Running));
}

#[test]
fn narrate_errors_say_what_happened() {
    assert_eq!(NarrateError::NoText.message(), "No text to speak");
    let code: Option<i32> = Some(-2);
    let failed = NarrateError::PiperFailed {
        code,
        stdout: "out".to_string(),
        stderr: "it's broken".to_string(),
    };
    assert_eq!(
        failed.message(),
        format!("Piper failed (exit code {:?}): stdout='{}' stderr='{}'", code, "out", "it's broken")
    );
    let killed = NarrateError::PiperFailed { code: None, stdout: String::new(), stderr: String::new() };
    assert_eq!(killed.message(), "Piper failed (exit code None): stdout='' stderr=''");
}
