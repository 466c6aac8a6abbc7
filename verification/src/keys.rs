//! From a key press to a command on the list.

use crossterm::event::KeyCode;
use vstd::prelude::*;

verus! {

/// `crossterm::event::KeyCode`, the key of a key event. Nothing of its
/// inside is visible here.
#[verifier::external_type_specification]
#[verifier::external_body]
pub struct ExKeyCode(KeyCode);

/// A key, as far as this viewer tells keys apart.
#[derive(Clone, Copy, Debug, PartialEq, Eq, Structural)]
pub enum Key {
    Char(char),
    Up,
    Down,
    PageUp,
    PageDown,
    Home,
    End,
    Other,
}

/// What the operator asks for.
#[derive(Clone, Copy, Debug, PartialEq, Eq, Structural)]
pub enum Command {
    Quit,
    LineUp,
    LineDown,
    PageUp,
    PageDown,
    First,
    Last,
    Nothing,
}

/// Whether the event loop goes on after a command.
#[derive(Clone, Copy, Debug, PartialEq, Eq, Structural)]
pub enum Flow {
    Continue,
    Quit,
}

/// The key that a key code stands for.
pub uninterp spec fn key_of(code: KeyCode) -> Key;

/// Tells the variants of `crossterm::event::KeyCode` apart: a character key
/// with its character, the six navigation keys each as itself, every other
/// key as `Other`.
#[verifier::external_body]
fn read_code(code: KeyCode) -> (key: Key)
    ensures
        key == key_of(code),
{
    match code {
        KeyCode::Char(c) => Key::Char(c),
        KeyCode::Up => Key::Up,
        KeyCode::Down => Key::Down,
        KeyCode::PageUp => Key::PageUp,
        KeyCode::PageDown => Key::PageDown,
        KeyCode::Home => Key::Home,
        KeyCode::End => Key::End,
        _ => Key::Other,
    }
}

/// The command bound to a key: `q` quits, the arrows move by one row, the
/// page keys by one page, Home and End jump to the ends. No other key does
/// anything.
pub open spec fn command_of(key: Key) -> Command {
    match key {
        Key::Char(c) => if c == 'q' {
            Command::Quit
        } else {
            Command::Nothing
        },
        Key::Up => Command::LineUp,
        Key::Down => Command::LineDown,
        Key::PageUp => Command::PageUp,
        Key::PageDown => Command::PageDown,
        Key::Home => Command::First,
        Key::End => Command::Last,
        Key::Other => Command::Nothing,
    }
}

impl Command {
    /// Whether the command moves by the height of the viewport, so that the
    /// height has to be known before it is carried out.
    pub open spec fn moves_by_page(self) -> bool {
        self == Command::PageUp || self == Command::PageDown
    }

    pub fn needs_page(&self) -> (needed: bool)
        ensures
            needed == self.moves_by_page(),
    {
        match self {
            Command::PageUp => true,
            Command::PageDown => true,
            _ => false,
        }
    }
}

pub fn command_for_key(key: Key) -> (command: Command)
    ensures
        command == command_of(key),
{
    match key {
        Key::Char(c) => {
            if c == 'q' {
                Command::Quit
            } else {
                Command::Nothing
            }
        },
        Key::Up => Command::LineUp,
        Key::Down => Command::LineDown,
        Key::PageUp => Command::PageUp,
        Key::PageDown => Command::PageDown,
        Key::Home => Command::First,
        Key::End => Command::Last,
        Key::Other => Command::Nothing,
    }
}

/// The command bound to the key of a key event.
pub fn command_for(code: KeyCode) -> (command: Command)
    ensures
        command == command_of(key_of(code)),
{
    command_for_key(read_code(code))
}

} // verus!
