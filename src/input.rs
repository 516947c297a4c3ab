//! Keys and the events they mean in each input mode.

use crate::state::InputMode;
use vstd::prelude::*;

verus! {

/// What the user asked for.
#[derive(Debug, Clone, Copy, PartialEq, Eq, Structural)]
pub enum InputEvent {
    Quit,
    MoveUp,
    MoveDown,
    CharInput(char),
    Backspace,
    Enter,
    Tab,
    PageUp,
    PageDown,
    EnterInsertMode,
    EnterNormalMode,
    ToggleFavorite,
    ShowHelp,
}

/// A key press, as the terminal reports it.
#[derive(Debug, Clone, Copy, PartialEq, Eq, Structural)]
pub enum Key {
    Char(char),
    Up,
    Down,
    Esc,
    Enter,
    Tab,
    PageUp,
    PageDown,
    Backspace,
    /// Any other key.
    Other,
}

/// The event a key press means: navigation and commands in Normal mode,
/// search typing in Insert mode; `None` for keys without a meaning there.
pub open spec fn event_for(key: Key, mode: InputMode) -> Option<InputEvent> {
    match mode {
        InputMode::Normal => match key {
            Key::Char('j') => Some(InputEvent::MoveDown),
            Key::Char('k') => Some(InputEvent::MoveUp),
            Key::Char('/') => Some(InputEvent::EnterInsertMode),
            Key::Char('f') => Some(InputEvent::ToggleFavorite),
            Key::Char('?') => Some(InputEvent::ShowHelp),
            Key::Up => Some(InputEvent::MoveUp),
            Key::Down => Some(InputEvent::MoveDown),
            Key::Esc => Some(InputEvent::Quit),
            Key::Enter => Some(InputEvent::Enter),
            Key::Tab => Some(InputEvent::Tab),
            Key::PageUp => Some(InputEvent::PageUp),
            Key::PageDown => Some(InputEvent::PageDown),
            _ => None,
        },
        InputMode::Insert => match key {
            Key::Esc => Some(InputEvent::EnterNormalMode),
            Key::Backspace => Some(InputEvent::Backspace),
            Key::Char(c) => Some(InputEvent::CharInput(c)),
            Key::Up => Some(InputEvent::MoveUp),
            Key::Down => Some(InputEvent::MoveDown),
            Key::Enter => Some(InputEvent::Enter),
            Key::Tab => Some(InputEvent::Tab),
            Key::PageUp => Some(InputEvent::PageUp),
            Key::PageDown => Some(InputEvent::PageDown),
            _ => None,
        },
    }
}

/// Maps a key press to its event in the given mode.
pub fn map_key_event(key: Key, input_mode: &InputMode) -> (r: Option<InputEvent>)
    ensures
        r == event_for(key, *input_mode),
{
    match input_mode {
        InputMode::Normal => match key {
            Key::Char('j') => Some(InputEvent::MoveDown),
            Key::Char('k') => Some(InputEvent::MoveUp),
            Key::Char('/') => Some(InputEvent::EnterInsertMode),
            Key::Char('f') => Some(InputEvent::ToggleFavorite),
            Key::Char('?') => Some(InputEvent::ShowHelp),
            Key::Up => Some(InputEvent::MoveUp),
            Key::Down => Some(InputEvent::MoveDown),
            Key::Esc => Some(InputEvent::Quit),
            Key::Enter => Some(InputEvent::Enter),
            Key::Tab => Some(InputEvent::Tab),
            Key::PageUp => Some(InputEvent::PageUp),
            Key::PageDown => Some(InputEvent::PageDown),
            _ => None,
        },
        InputMode::Insert => match key {
            Key::Esc => Some(InputEvent::EnterNormalMode),
            Key::Backspace => Some(InputEvent::Backspace),
            Key::Char(c) => Some(InputEvent::CharInput(c)),
            Key::Up => Some(InputEvent::MoveUp),
            Key::Down => Some(InputEvent::MoveDown),
            Key::Enter => Some(InputEvent::Enter),
            Key::Tab => Some(InputEvent::Tab),
            Key::PageUp => Some(InputEvent::PageUp),
            Key::PageDown => Some(InputEvent::PageDown),
            _ => None,
        },
    }
}

} // verus!
