//! The fixed key map: from a key press and the mode to a command, without
//! configurable bindings.
//!
//! Ctrl+S and Ctrl+Q (either case) save and quit in every mode.  Insert
//! mode inserts characters typed without Ctrl or Alt, Enter as a newline;
//! Backspace deletes, Esc goes to Normal mode, the arrows move.  Normal mode
//! goes to Insert mode on `i` and moves on the arrows.  Prompt mode types
//! characters into the prompt; Backspace, Enter and Esc edit, accept and
//! cancel it.
use vstd::prelude::*;
use crate::editor::EditorMode;
use super::command::EditorCommand;
use super::direction::Direction;
use super::keys::{KeyCode, KeyEvent, KeyModifiers};

verus! {

/// Whether Control is held.
pub open spec fn control_held(m: KeyModifiers) -> bool {
    m.bits & 2 == 2
}

/// Whether Control or Alt is held.
pub open spec fn control_or_alt_held(m: KeyModifiers) -> bool {
    m.bits & 6 != 0
}

/// The cursor motion of an arrow key.
pub open spec fn arrow_command(code: KeyCode) -> Option<EditorCommand> {
    match code {
        KeyCode::Up => Some(EditorCommand::MoveCursor(Direction::Up)),
        KeyCode::Down => Some(EditorCommand::MoveCursor(Direction::Down)),
        KeyCode::Left => Some(EditorCommand::MoveCursor(Direction::Left)),
        KeyCode::Right => Some(EditorCommand::MoveCursor(Direction::Right)),
        _ => None,
    }
}

/// The command of a key press in a mode.
pub open spec fn key_command(event: KeyEvent, mode: EditorMode) -> Option<EditorCommand> {
    let code = event.code;
    let plain = !control_or_alt_held(event.modifiers);
    if control_held(event.modifiers) && (code == KeyCode::Char('s') || code == KeyCode::Char('S')) {
        Some(EditorCommand::Save)
    } else if control_held(event.modifiers) && (code == KeyCode::Char('q') || code == KeyCode::Char(
        'Q',
    )) {
        Some(EditorCommand::Quit)
    } else {
        match mode {
            EditorMode::Insert => match code {
                KeyCode::Char(c) => if plain {
                    Some(EditorCommand::InsertChar(c))
                } else {
                    None
                },
                KeyCode::Enter => Some(EditorCommand::InsertChar('\n')),
                KeyCode::Backspace => Some(EditorCommand::DeleteChar),
                KeyCode::Esc => Some(EditorCommand::ChangeMode(EditorMode::Normal)),
                _ => arrow_command(code),
            },
            EditorMode::Normal => match code {
                KeyCode::Char(c) => if c == 'i' && plain {
                    Some(EditorCommand::ChangeMode(EditorMode::Insert))
                } else {
                    None
                },
                _ => arrow_command(code),
            },
            EditorMode::Prompt => match code {
                KeyCode::Char(c) => if plain {
                    Some(EditorCommand::PromptInsertChar(c))
                } else {
                    None
                },
                KeyCode::Backspace => Some(EditorCommand::PromptDeleteChar),
                KeyCode::Enter => Some(EditorCommand::AcceptPrompt),
                KeyCode::Esc => Some(EditorCommand::CancelPrompt),
                _ => None,
            },
        }
    }
}

fn arrow_motion(code: KeyCode) -> (r: Option<EditorCommand>)
    ensures
        r == arrow_command(code),
{
    match code {
        KeyCode::Up => Some(EditorCommand::MoveCursor(Direction::Up)),
        KeyCode::Down => Some(EditorCommand::MoveCursor(Direction::Down)),
        KeyCode::Left => Some(EditorCommand::MoveCursor(Direction::Left)),
        KeyCode::Right => Some(EditorCommand::MoveCursor(Direction::Right)),
        _ => None,
    }
}

/// The command of a key press in a mode, by the fixed key map.
pub fn handle_key_event(event: KeyEvent, mode: EditorMode) -> (r: Option<EditorCommand>)
    ensures
        r == key_command(event, mode),
{
    if event.modifiers.contains(KeyModifiers::control()) {
        match event.code {
            KeyCode::Char('s') | KeyCode::Char('S') => return Some(EditorCommand::Save),
            KeyCode::Char('q') | KeyCode::Char('Q') => return Some(EditorCommand::Quit),
            _ => {},
        }
    }
    match mode {
        EditorMode::Insert => handle_insert_mode(event),
        EditorMode::Normal => handle_normal_mode(event),
        EditorMode::Prompt => handle_prompt_mode(event),
    }
}

fn handle_insert_mode(event: KeyEvent) -> (r: Option<EditorCommand>)
    ensures
        r == (match event.code {
            KeyCode::Char(c) => if !control_or_alt_held(event.modifiers) {
                Some(EditorCommand::InsertChar(c))
            } else {
                None
            },
            KeyCode::Enter => Some(EditorCommand::InsertChar('\n')),
            KeyCode::Backspace => Some(EditorCommand::DeleteChar),
            KeyCode::Esc => Some(EditorCommand::ChangeMode(EditorMode::Normal)),
            _ => arrow_command(event.code),
        }),
{
    let ctrl_alt = KeyModifiers::control() | KeyModifiers::alt();
    assert(2u8 | 4u8 == 6u8) by (bit_vector);
    match event.code {
        KeyCode::Char(c) => if !event.modifiers.intersects(ctrl_alt) {
            Some(EditorCommand::InsertChar(c))
        } else {
            None
        },
        KeyCode::Enter => Some(EditorCommand::InsertChar('\n')),
        KeyCode::Backspace => Some(EditorCommand::DeleteChar),
        KeyCode::Esc => Some(EditorCommand::ChangeMode(EditorMode::Normal)),
        _ => arrow_motion(event.code),
    }
}

fn handle_normal_mode(event: KeyEvent) -> (r: Option<EditorCommand>)
    ensures
        r == (match event.code {
            KeyCode::Char(c) => if c == 'i' && !control_or_alt_held(event.modifiers) {
                Some(EditorCommand::ChangeMode(EditorMode::Insert))
            } else {
                None
            },
            _ => arrow_command(event.code),
        }),
{
    let ctrl_alt = KeyModifiers::control() | KeyModifiers::alt();
    assert(2u8 | 4u8 == 6u8) by (bit_vector);
    match event.code {
        KeyCode::Char(c) => if c == 'i' && !event.modifiers.intersects(ctrl_alt) {
            Some(EditorCommand::ChangeMode(EditorMode::Insert))
        } else {
            None
        },
        _ => arrow_motion(event.code),
    }
}

fn handle_prompt_mode(event: KeyEvent) -> (r: Option<EditorCommand>)
    ensures
        r == (match event.code {
            KeyCode::Char(c) => if !control_or_alt_held(event.modifiers) {
                Some(EditorCommand::PromptInsertChar(c))
            } else {
                None
            },
            KeyCode::Backspace => Some(EditorCommand::PromptDeleteChar),
            KeyCode::Enter => Some(EditorCommand::AcceptPrompt),
            KeyCode::Esc => Some(EditorCommand::CancelPrompt),
            _ => None,
        }),
{
    let ctrl_alt = KeyModifiers::control() | KeyModifiers::alt();
    assert(2u8 | 4u8 == 6u8) by (bit_vector);
    match event.code {
        KeyCode::Char(c) => if !event.modifiers.intersects(ctrl_alt) {
            Some(EditorCommand::PromptInsertChar(c))
        } else {
            None
        },
        KeyCode::Backspace => Some(EditorCommand::PromptDeleteChar),
        KeyCode::Enter => Some(EditorCommand::AcceptPrompt),
        KeyCode::Esc => Some(EditorCommand::CancelPrompt),
        _ => None,
    }
}

} // verus!
