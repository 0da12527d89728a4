use voice_hotkeys::hotkeys::{
    dictation_step, edge, speak_action, DictationAction, DictationEvent, Hotkeys, KeyEdge,
    RecordAction, SpeakAction, POLL_INTERVAL_MS,
};

#[test]
fn poll_interval() {
    assert_eq!(POLL_INTERVAL_MS, 20);
}

#[test]
fn edges() {
    assert_eq!(edge(false, false), KeyEdge::Steady);
    assert_eq!(edge(false, true), KeyEdge::Pressed);
    assert_eq!(edge(true, true), KeyEdge::Steady);
    assert_eq!(edge(true, false), KeyEdge::Released);
}

#[test]
fn holding_the_record_key_records_once() {
    let mut keys = Hotkeys::new();
    let samples = [false, true, true, true, false, false, true, false];
    let wanted = [
        RecordAction::Idle,
        RecordAction::Start,
        RecordAction::Idle,
        RecordAction::Idle,
        RecordAction::Finish,
        RecordAction::Idle,
        RecordAction::Start,
        RecordAction::Finish,
    ];
    for (down, action) in samples.iter().zip(wanted.iter()) {
        assert_eq!(keys.record_key(*down), *action);
    }
}

#[test]
fn the_speak_key_counts_when_it_goes_down() {
    let mut keys = Hotkeys::new();
    let samples = [false, true, true, false, true, false, false, true];
    let wanted = [false, true, false, false, true, false, false, true];
    for (down, pressed) in samples.iter().zip(wanted.iter()) {
        assert_eq!(keys.speak_key(*down), *pressed);
    }
}

#[test]
fn the_two_keys_do_not_disturb_each_other() {
    let mut keys = Hotkeys::new();
    assert_eq!(keys.record_key(true), RecordAction::Start);
    assert!(keys.speak_key(true));
    assert_eq!(keys.record_key(true), RecordAction::Idle);
    assert!(!keys.speak_key(true));
    assert_eq!(keys.record_key(false), RecordAction::Finish);
    assert!(!keys.speak_key(false));
}

#[test]
fn a_speak_key_sample_that_is_skipped_is_not_remembered() {
    // the key goes down while a poll is abandoned and is still down at the
    // next poll: that poll sees it go down
    let mut keys = Hotkeys::new();
    assert!(!keys.speak_key(false));
    assert_eq!(keys.record_key(false), RecordAction::Idle);
    assert!(keys.speak_key(true));
}

#[test]
fn pressing_the_speak_key_again_stops_the_playback() {
    assert_eq!(speak_action(None), SpeakAction::Unavailable);
    assert_eq!(speak_action(Some(true)), SpeakAction::StopPlayback);
    assert_eq!(speak_action(Some(false)), SpeakAction::ReadSelection);
}

#[test]
fn the_way_of_a_recording() {
    assert_eq!(dictation_step(DictationEvent::Captured { samples: 0 }), DictationAction::Abandon);
    assert_eq!(dictation_step(DictationEvent::Captured { samples: 1 }), DictationAction::Save);
    assert_eq!(
        dictation_step(DictationEvent::Captured { samples: usize::MAX }),
        DictationAction::Save
    );
    assert_eq!(dictation_step(DictationEvent::CaptureFailed), DictationAction::Done);
    assert_eq!(dictation_step(DictationEvent::Saved), DictationAction::Transcribe);
    assert_eq!(dictation_step(DictationEvent::SaveFailed), DictationAction::Abandon);
    assert_eq!(dictation_step(DictationEvent::Heard { empty: false }), DictationAction::Paste);
    assert_eq!(dictation_step(DictationEvent::Heard { empty: true }), DictationAction::Done);
    assert_eq!(dictation_step(DictationEvent::NotHeard), DictationAction::Done);
}
