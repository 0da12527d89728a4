use voice_hotkeys::clipboard::{
    get_selected_text, paste_text, selected_text, DeskStep, Direction, Key, COPY_DELAY_MS,
    PASTE_DELAY_MS,
};

#[test]
fn delays() {
    assert_eq!(PASTE_DELAY_MS, 100);
    assert_eq!(COPY_DELAY_MS, 150);
}

#[test]
fn pasting_fills_the_clipboard_and_types_control_v() {
    assert_eq!(
        paste_text("Olá, mundo"),
        vec![
            DeskStep::SetClipboard("Olá, mundo".to_string()),
            DeskStep::Wait(100),
            DeskStep::Stroke(Key::Control, Direction::Press),
            DeskStep::Stroke(Key::Unicode('v'), Direction::Click),
            DeskStep::Stroke(Key::Control, Direction::Release),
        ]
    );
}

#[test]
fn pasting_an_empty_text_still_types() {
    let steps = paste_text("");
    assert_eq!(steps.len(), 5);
    assert_eq!(steps[0], DeskStep::SetClipboard(String::new()));
}

#[test]
fn the_selection_is_copied_at_once_and_read_after_a_pause() {
    assert_eq!(
        get_selected_text(),
        vec![
            DeskStep::Stroke(Key::Control, Direction::Press),
            DeskStep::Stroke(Key::Unicode('c'), Direction::Click),
            DeskStep::Stroke(Key::Control, Direction::Release),
            DeskStep::Wait(150),
            DeskStep::ReadClipboard,
        ]
    );
}

#[test]
fn a_clipboard_that_cannot_be_read_is_an_empty_selection() {
    assert_eq!(selected_text(None), "");
    assert_eq!(selected_text(Some("picked".to_string())), "picked");
    assert_eq!(selected_text(Some(String::new())), "");
}
