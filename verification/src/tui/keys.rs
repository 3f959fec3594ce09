//! What each key asks for.

use vstd::prelude::*;

verus! {

/// A key as the front end tells it.
#[derive(Debug, Clone, Copy, PartialEq, Eq, Structural)]
pub enum Key {
    Char(char),
    Up,
    Down,
    Tab,
    BackTab,
    Enter,
    Esc,
    Backspace,
    Other,
}

/// What a key asks for.
#[derive(Debug, Clone, Copy, PartialEq, Eq, Structural)]
pub enum KeyCommand {
    Quit,
    Reload,
    ShowAddDialog,
    RemoveSelected,
    ToggleStage,
    Link,
    Unlink,
    Commit,
    Previous,
    Next,
    NextTab,
    PreviousTab,
    Enter,
    Escape,
    Backspace,
    Input(char),
    Ignore,
}

/// What a letter asks for while no dialog is open.
pub open spec fn shortcut(c: char) -> Option<KeyCommand> {
    if c == 'q' {
        Some(KeyCommand::Quit)
    } else if c == 'r' {
        Some(KeyCommand::Reload)
    } else if c == 'a' {
        Some(KeyCommand::ShowAddDialog)
    } else if c == 'd' {
        Some(KeyCommand::RemoveSelected)
    } else if c == 's' {
        Some(KeyCommand::ToggleStage)
    } else if c == 'l' {
        Some(KeyCommand::Link)
    } else if c == 'u' {
        Some(KeyCommand::Unlink)
    } else if c == 'c' {
        Some(KeyCommand::Commit)
    } else if c == 'k' {
        Some(KeyCommand::Previous)
    } else if c == 'j' {
        Some(KeyCommand::Next)
    } else {
        None
    }
}

/// What a key asks for. While a dialog is open, only enter, escape and
/// backspace keep their meaning; every character goes to the input, and
/// the keys that move are ignored. Without a dialog a letter is a
/// shortcut or, if it is none, goes to the input, where it is dropped.
pub open spec fn command_of(dialog_open: bool, key: Key) -> KeyCommand {
    match key {
        Key::Enter => KeyCommand::Enter,
        Key::Esc => KeyCommand::Escape,
        Key::Backspace => KeyCommand::Backspace,
        Key::Char(c) => if !dialog_open && shortcut(c) is Some {
            shortcut(c)->0
        } else {
            KeyCommand::Input(c)
        },
        Key::Up => if dialog_open {
            KeyCommand::Ignore
        } else {
            KeyCommand::Previous
        },
        Key::Down => if dialog_open {
            KeyCommand::Ignore
        } else {
            KeyCommand::Next
        },
        Key::Tab => if dialog_open {
            KeyCommand::Ignore
        } else {
            KeyCommand::NextTab
        },
        Key::BackTab => if dialog_open {
            KeyCommand::Ignore
        } else {
            KeyCommand::PreviousTab
        },
        Key::Other => KeyCommand::Ignore,
    }
}

/// What a letter asks for while no dialog is open.
pub fn shortcut_of(c: char) -> (r: Option<KeyCommand>)
    ensures
        r == shortcut(c),
{
    if c == 'q' {
        Some(KeyCommand::Quit)
    } else if c == 'r' {
        Some(KeyCommand::Reload)
    } else if c == 'a' {
        Some(KeyCommand::ShowAddDialog)
    } else if c == 'd' {
        Some(KeyCommand::RemoveSelected)
    } else if c == 's' {
        Some(KeyCommand::ToggleStage)
    } else if c == 'l' {
        Some(KeyCommand::Link)
    } else if c == 'u' {
        Some(KeyCommand::Unlink)
    } else if c == 'c' {
        Some(KeyCommand::Commit)
    } else if c == 'k' {
        Some(KeyCommand::Previous)
    } else if c == 'j' {
        Some(KeyCommand::Next)
    } else {
        None
    }
}

/// What a key asks for.
pub fn key_command(dialog_open: bool, key: Key) -> (r: KeyCommand)
    ensures
        r == command_of(dialog_open, key),
{
    match key {
        Key::Enter => KeyCommand::Enter,
        Key::Esc => KeyCommand::Escape,
        Key::Backspace => KeyCommand::Backspace,
        Key::Char(c) => {
            if !dialog_open {
                if let Some(command) = shortcut_of(c) {
                    return command;
                }
            }
            KeyCommand::Input(c)
        },
        Key::Up => if dialog_open {
            KeyCommand::Ignore
        } else {
            KeyCommand::Previous
        },
        Key::Down => if dialog_open {
            KeyCommand::Ignore
        } else {
            KeyCommand::Next
        },
        Key::Tab => if dialog_open {
            KeyCommand::Ignore
        } else {
            KeyCommand::NextTab
        },
        Key::BackTab => if dialog_open {
            KeyCommand::Ignore
        } else {
            KeyCommand::PreviousTab
        },
        Key::Other => KeyCommand::Ignore,
    }
}

} // verus!
