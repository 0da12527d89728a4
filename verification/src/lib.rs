//! Decision logic of a push-to-talk dictation and read-aloud desktop tool.
//!
//! Everything here works on plain values: the program around it owns the
//! microphone, the clipboard, the keyboard and the child processes, and asks
//! this crate what to do with what they gave.

pub mod audio;
pub mod clipboard;
pub mod command;
pub mod config;
pub mod display;
pub mod hotkeys;
pub mod microphone;
pub mod narrate;
pub mod text;
pub mod transcribe;
