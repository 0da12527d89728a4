//! The two hotkeys. Their state is sampled at a fixed interval; what counts
//! is the change between one sample and the next.

use vstd::prelude::*;

verus! {

/// The time between two samples of the keys, in milliseconds.
pub const POLL_INTERVAL_MS: u64 = 20;

/// What a key did between two samples.
#[derive(Clone, Copy, PartialEq, Eq, Structural, Debug)]
pub enum KeyEdge {
    /// It is where it was.
    Steady,
    /// It went down.
    Pressed,
    /// It came up.
    Released,
}

/// The change from `was_down` to `is_down`.
pub open spec fn edge_of(was_down: bool, is_down: bool) -> KeyEdge {
    if is_down && !was_down {
        KeyEdge::Pressed
    } else if !is_down && was_down {
        KeyEdge::Released
    } else {
        KeyEdge::Steady
    }
}

/// The change from `was_down` to `is_down`.
pub fn edge(was_down: bool, is_down: bool) -> (change: KeyEdge)
    ensures
        change == edge_of(was_down, is_down),
{
    if is_down && !was_down {
        KeyEdge::Pressed
    } else if !is_down && was_down {
        KeyEdge::Released
    } else {
        KeyEdge::Steady
    }
}

/// What the record key asks for.
#[derive(Clone, Copy, PartialEq, Eq, Structural, Debug)]
pub enum RecordAction {
    /// Nothing.
    Idle,
    /// The key went down: start recording.
    Start,
    /// The key came up: stop recording and transcribe.
    Finish,
}

/// What the speak key asks for when it went down.
#[derive(Clone, Copy, PartialEq, Eq, Structural, Debug)]
pub enum SpeakAction {
    /// There is no narrator.
    Unavailable,
    /// A text is being played: stop it.
    StopPlayback,
    /// Read the selected text aloud.
    ReadSelection,
}

/// What has happened to a recording after the record key came up.
#[derive(Clone, Copy, PartialEq, Eq, Structural, Debug)]
pub enum DictationEvent {
    /// The recorder handed out this many samples.
    Captured { samples: usize },
    /// The recorder could not hand out its samples.
    CaptureFailed,
    /// The sound file is written.
    Saved,
    /// The sound file could not be written.
    SaveFailed,
    /// The recognizer gave a text; `empty` says whether the text is empty.
    Heard { empty: bool },
    /// The recognizer gave no text.
    NotHeard,
}

/// What to do next with a recording.
#[derive(Clone, Copy, PartialEq, Eq, Structural, Debug)]
pub enum DictationAction {
    /// Write the sound file.
    Save,
    /// Run the recognizer on the sound file.
    Transcribe,
    /// Put the text at the cursor.
    Paste,
    /// The recording is dealt with: go on with the speak key.
    Done,
    /// Give the recording up and sample the keys anew at once: the speak key
    /// is not looked at and not remembered, and the interval is not waited.
    Abandon,
}

/// The next step for each event: an empty recording and one that cannot be
/// saved are abandoned; an empty text is not pasted.
pub open spec fn next_step(event: DictationEvent) -> DictationAction {
    match event {
        DictationEvent::Captured { samples } => if samples == 0 {
            DictationAction::Abandon
        } else {
            DictationAction::Save
        },
        DictationEvent::CaptureFailed => DictationAction::Done,
        DictationEvent::Saved => DictationAction::Transcribe,
        DictationEvent::SaveFailed => DictationAction::Abandon,
        DictationEvent::Heard { empty } => if empty {
            DictationAction::Done
        } else {
            DictationAction::Paste
        },
        DictationEvent::NotHeard => DictationAction::Done,
    }
}

/// What to do next with a recording.
pub fn dictation_step(event: DictationEvent) -> (action: DictationAction)
    ensures
        action == next_step(event),
{
    match event {
        DictationEvent::Captured { samples } => if samples == 0 {
            DictationAction::Abandon
        } else {
            DictationAction::Save
        },
        DictationEvent::CaptureFailed => DictationAction::Done,
        DictationEvent::Saved => DictationAction::Transcribe,
        DictationEvent::SaveFailed => DictationAction::Abandon,
        DictationEvent::Heard { empty } => if empty {
            DictationAction::Done
        } else {
            DictationAction::Paste
        },
        DictationEvent::NotHeard => DictationAction::Done,
    }
}

/// What the speak key asks for when it went down: `playing` is `None` where
/// there is no narrator, else whether the narrator is playing. Pressing the
/// key while a text is played stops the playback.
pub fn speak_action(playing: Option<bool>) -> (action: SpeakAction)
    ensures
        action == match playing {
            None => SpeakAction::Unavailable,
            Some(true) => SpeakAction::StopPlayback,
            Some(false) => SpeakAction::ReadSelection,
        },
{
    match playing {
        None => SpeakAction::Unavailable,
        Some(true) => SpeakAction::StopPlayback,
        Some(false) => SpeakAction::ReadSelection,
    }
}

/// The last sample of the two keys.
#[derive(Clone, Copy, PartialEq, Eq, Structural, Debug)]
pub struct Hotkeys {
    record_down: bool,
    speak_down: bool,
}

impl Hotkeys {
    /// Whether the record key was down at its last sample.
    pub closed spec fn record_down(&self) -> bool {
        self.record_down
    }

    /// Whether the speak key was down at its last sample.
    pub closed spec fn speak_down(&self) -> bool {
        self.speak_down
    }

    /// Both keys up.
    pub fn new() -> (keys: Hotkeys)
        ensures
            !keys.record_down(),
            !keys.speak_down(),
    {
        Hotkeys { record_down: false, speak_down: false }
    }

    /// Takes a sample of the record key.
    pub fn record_key(&mut self, down: bool) -> (action: RecordAction)
        ensures
            final(self).record_down() == down,
            final(self).speak_down() == old(self).speak_down(),
            action == match edge_of(old(self).record_down(), down) {
                KeyEdge::Pressed => RecordAction::Start,
                KeyEdge::Released => RecordAction::Finish,
                KeyEdge::Steady => RecordAction::Idle,
            },
    {
        let change = edge(self.record_down, down);
        self.record_down = down;
        match change {
            KeyEdge::Pressed => RecordAction::Start,
            KeyEdge::Released => RecordAction::Finish,
            KeyEdge::Steady => RecordAction::Idle,
        }
    }

    /// Takes a sample of the speak key and tells whether the key went down.
    pub fn speak_key(&mut self, down: bool) -> (pressed: bool)
        ensures
            final(self).speak_down() == down,
            final(self).record_down() == old(self).record_down(),
            pressed == (edge_of(old(self).speak_down(), down) == KeyEdge::Pressed),
    {
        let change = edge(self.speak_down, down);
        self.speak_down = down;
        match change {
            KeyEdge::Pressed => true,
            _ => false,
        }
    }
}

} // verus!
