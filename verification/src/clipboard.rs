//! Text to and from the application in front, by way of the clipboard and
//! the keyboard shortcuts for paste and copy.

use vstd::prelude::*;
use vstd::string::StringExecFns;

verus! {

/// How long to wait, in milliseconds, between filling the clipboard and
/// pasting.
pub const PASTE_DELAY_MS: u64 = 100;

/// How long to wait, in milliseconds, after copying before the clipboard is
/// read.
pub const COPY_DELAY_MS: u64 = 150;

/// A key of the keyboard.
#[derive(Clone, Copy, PartialEq, Eq, Structural, Debug)]
pub enum Key {
    Control,
    /// The key that types this character.
    Unicode(char),
}

/// What is done to a key.
#[derive(Clone, Copy, PartialEq, Eq, Structural, Debug)]
pub enum Direction {
    Press,
    Release,
    /// Press, then release.
    Click,
}

/// One thing done to the desktop.
#[derive(Clone, PartialEq, Eq, Debug)]
pub enum DeskStep {
    /// Put this text on the clipboard.
    SetClipboard(String),
    /// Wait this many milliseconds.
    Wait(u64),
    /// Move a key.
    Stroke(Key, Direction),
    /// Take the text that is on the clipboard.
    ReadClipboard,
}

/// What a `DeskStep` stands for.
pub enum Step {
    SetClipboard(Seq<char>),
    Wait(u64),
    Stroke(Key, Direction),
    ReadClipboard,
}

impl View for DeskStep {
    type V = Step;

    open spec fn view(&self) -> Step {
        match self {
            DeskStep::SetClipboard(text) => Step::SetClipboard(text@),
            DeskStep::Wait(ms) => Step::Wait(*ms),
            DeskStep::Stroke(key, direction) => Step::Stroke(*key, *direction),
            DeskStep::ReadClipboard => Step::ReadClipboard,
        }
    }
}

/// The meaning of each of `steps`, in order.
pub open spec fn script(steps: Seq<DeskStep>) -> Seq<Step> {
    Seq::new(steps.len(), |i: int| steps[i]@)
}

/// Control held down while `letter` is clicked.
pub open spec fn chord(letter: char) -> Seq<Step> {
    seq![
        Step::Stroke(Key::Control, Direction::Press),
        Step::Stroke(Key::Unicode(letter), Direction::Click),
        Step::Stroke(Key::Control, Direction::Release),
    ]
}

/// Pasting `text`: the text goes on the clipboard, and after a pause
/// Control-V is typed.
pub open spec fn paste_script(text: Seq<char>) -> Seq<Step> {
    seq![Step::SetClipboard(text), Step::Wait(100)] + chord('v')
}

/// Fetching the selection: Control-C is typed at once, and after a pause the
/// clipboard is read.
pub open spec fn copy_script() -> Seq<Step> {
    chord('c') + seq![Step::Wait(150), Step::ReadClipboard]
}

fn push_chord(steps: &mut Vec<DeskStep>, letter: char)
    ensures
        script(final(steps)@) == script(old(steps)@) + chord(letter),
{
    steps.push(DeskStep::Stroke(Key::Control, Direction::Press));
    steps.push(DeskStep::Stroke(Key::Unicode(letter), Direction::Click));
    steps.push(DeskStep::Stroke(Key::Control, Direction::Release));
    assert(script(steps@) == script(old(steps)@) + chord(letter));
}

/// The steps that put `text` at the cursor. The first step that fails ends
/// the script.
pub fn paste_text(text: &str) -> (steps: Vec<DeskStep>)
    ensures
        script(steps@) == paste_script(text@),
{
    let mut steps: Vec<DeskStep> = Vec::new();
    steps.push(DeskStep::SetClipboard(String::from_str(text)));
    steps.push(DeskStep::Wait(PASTE_DELAY_MS));
    assert(script(steps@) == seq![Step::SetClipboard(text@), Step::Wait(100)]);
    push_chord(&mut steps, 'v');
    steps
}

/// The steps that fetch the selected text. A key that cannot be moved ends
/// the script; what the last step read goes through `selected_text`.
pub fn get_selected_text() -> (steps: Vec<DeskStep>)
    ensures
        script(steps@) == copy_script(),
{
    let mut steps: Vec<DeskStep> = Vec::new();
    assert(script(steps@) == Seq::<Step>::empty());
    push_chord(&mut steps, 'c');
    let ghost typed = steps@;
    steps.push(DeskStep::Wait(COPY_DELAY_MS));
    steps.push(DeskStep::ReadClipboard);
    assert(script(steps@) == script(typed) + seq![Step::Wait(150), Step::ReadClipboard]);
    steps
}

/// The selected text, from what reading the clipboard gave: a clipboard that
/// cannot be read, or holds no text, counts as an empty selection.
pub fn selected_text(read: Option<String>) -> (text: String)
    ensures
        text@ == match read {
            Some(t) => t@,
            None => Seq::<char>::empty(),
        },
{
    match read {
        Some(text) => text,
        None => String::new(),
    }
}

} // verus!
