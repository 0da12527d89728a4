use voice_hotkeys::command::Location;
use voice_hotkeys::config::{
    parse_config, resolve, Candidate, ConfigError, FileSettings, NarratorConfig, CONFIG_FILE,
    PIPER_MODEL_VAR, PIPER_PATH_VAR,
};

fn owned(s: &str) -> Option<String> {
    Some(s.to_string())
}

/// The same reading written with std's own string functions.
fn read_by_std(content: &str) -> FileSettings {
    let mut found = FileSettings { piper_path: None, model_path: None, speed: None };
    for line in content.lines() {
        let line = line.trim();
        if line.is_empty() || line.starts_with('#') {
            continue;
        }
        if let Some((key, value)) = line.split_once('=') {
            let key = key.trim();
            let value = value.trim();
            match key {
                "PIPER_PATH" => found.piper_path = owned(value),
                "PIPER_MODEL" => found.model_path = owned(value),
                "SPEED" => found.speed = owned(value),
                _ => {}
            }
        }
    }
    found
}

#[test]
fn names_of_file_and_variables() {
    assert_eq!(CONFIG_FILE, "tts_config.txt");
    assert_eq!(PIPER_PATH_VAR, "PIPER_PATH");
    assert_eq!(PIPER_MODEL_VAR, "PIPER_MODEL");
}

#[test]
fn empty_file_has_no_entries() {
    assert_eq!(
        parse_config(""),
        FileSettings { piper_path: None, model_path: None, speed: None }
    );
}

#[test]
fn entries_are_read_with_white_space_around_them() {
    let content = "# voice\n  PIPER_PATH = /opt/piper/piper  \nPIPER_MODEL=/opt/piper/pt.onnx\r\n\nSPEED =\t1.25\n";
    assert_eq!(
        parse_config(content),
        FileSettings {
            piper_path: owned("/opt/piper/piper"),
            model_path: owned("/opt/piper/pt.onnx"),
            speed: owned("1.25"),
        }
    );
}

#[test]
fn the_last_entry_of_a_key_counts() {
    let content = "SPEED=2\nPIPER_PATH=a\nSPEED=fast\nPIPER_PATH=b";
    let settings = parse_config(content);
    assert_eq!(settings.piper_path, owned("b"));
    assert_eq!(settings.speed, owned("fast"));
    assert_eq!(settings.model_path, None);
}

#[test]
fn a_value_may_hold_equal_signs_and_may_be_empty() {
    let settings = parse_config("PIPER_PATH=a=b=c\nPIPER_MODEL=\nSPEED =  ");
    assert_eq!(settings.piper_path, owned("a=b=c"));
    assert_eq!(settings.model_path, owned(""));
    assert_eq!(settings.speed, owned(""));
}

#[test]
fn comments_unknown_keys_and_lines_without_equal_sign_are_passed_over() {
    let content = "#PIPER_PATH=no\n   # SPEED=3\nVOICE=x\npiper_path=lower\nPIPER_PATH\n=value\nPIPER_PATH =yes";
    let settings = parse_config(content);
    assert_eq!(settings.piper_path, owned("yes"));
    assert_eq!(settings.model_path, None);
    assert_eq!(settings.speed, None);
}

#[test]
fn settings_reading_agrees_with_std() {
    let samples = [
        "",
        "\n",
        "\r\n\r\n",
        "PIPER_PATH=x",
        "PIPER_PATH=x\n",
        "PIPER_PATH=x\r",
        "PIPER_PATH=x\r\nPIPER_MODEL=y\r\n",
        " PIPER_PATH \u{a0}= \u{3000}x y\u{2003}\n",
        "PIPER_PATH==\nSPEED=1=2\n",
        "SPEED=1.5\nSPEED=\n",
        "a=b\n#c=d\nPIPER_MODEL = m.onnx # not a comment\n",
        "PIPER\n_PATH=x\n",
        "PIPER_PATH=caminho/com/acentuação\nSPEED=0,9",
        "=\n==\n = = \n",
        "PIPER_PATH=a\n\n\nPIPER_PATH=b\n\n",
    ];
    for s in samples {
        assert_eq!(parse_config(s), read_by_std(s), "{:?}", s);
    }
}

#[test]
fn environment_wins_over_file_and_file_over_default() {
    let file = FileSettings {
        piper_path: owned("file-piper"),
        model_path: owned("file-model"),
        speed: owned("0.8"),
    };
    assert_eq!(
        resolve(file.clone(), owned("env-piper"), None),
        Candidate {
            piper_path: Location::Given("env-piper".to_string()),
            model_path: Location::Given("file-model".to_string()),
            speed: owned("0.8"),
        }
    );
    assert_eq!(
        resolve(file, None, owned("env-model")),
        Candidate {
            piper_path: Location::Given("file-piper".to_string()),
            model_path: Location::Given("env-model".to_string()),
            speed: owned("0.8"),
        }
    );
}

#[test]
fn defaults_are_files_in_the_working_directory() {
    let nothing = FileSettings { piper_path: None, model_path: None, speed: None };
    assert_eq!(
        resolve(nothing, None, None),
        Candidate {
            piper_path: Location::InWorkingDir("piper.exe".to_string()),
            model_path: Location::InWorkingDir("piper-model.onnx".to_string()),
            speed: None,
        }
    );
}

fn candidate() -> Candidate {
    Candidate {
        piper_path: Location::Given("p".to_string()),
        model_path: Location::InWorkingDir("m".to_string()),
        speed: owned("1.5"),
    }
}

#[test]
fn settings_are_accepted_when_both_files_exist() {
    let loaded = NarratorConfig::load(candidate(), true, true);
    assert_eq!(
        loaded,
        Ok(NarratorConfig {
            piper_path: Location::Given("p".to_string()),
            model_path: Location::InWorkingDir("m".to_string()),
            speed: owned("1.5"),
        })
    );
    let config = loaded.unwrap();
    assert_eq!(config.duplicate(), config);
}

#[test]
fn a_missing_synthesizer_is_reported_first() {
    assert_eq!(
        NarratorConfig::load(candidate(), false, true),
        Err(ConfigError::PiperNotFound(Location::Given("p".to_string())))
    );
    assert_eq!(
        NarratorConfig::load(candidate(), false, false),
        Err(ConfigError::PiperNotFound(Location::Given("p".to_string())))
    );
}

#[test]
fn a_missing_model_is_reported() {
    assert_eq!(
        NarratorConfig::load(candidate(), true, false),
        Err(ConfigError::ModelNotFound(Location::InWorkingDir("m".to_string())))
    );
}

#[test]
fn config_errors_say_what_is_missing_and_where() {
    let piper = ConfigError::PiperNotFound(Location::Given("p".to_string()));
    assert_eq!(piper.location(), &Location::Given("p".to_string()));
    assert_eq!(
        piper.message("/work/p"),
        "Piper executable not found at '/work/p'. Please download Piper from https://github.com/OHF-Voice/piper1-gpl/releases and set PIPER_PATH environment variable or add PIPER_PATH to tts_config.txt"
    );
    let model = ConfigError::ModelNotFound(Location::InWorkingDir("m".to_string()));
    assert_eq!(model.location(), &Location::InWorkingDir("m".to_string()));
    assert_eq!(
        model.message("C:\\voices\\m"),
        "Piper model not found at 'C:\\voices\\m'. Please download a model from https://huggingface.co/rhasspy/piper-voices and set PIPER_MODEL environment variable or add PIPER_MODEL to tts_config.txt"
    );
}
