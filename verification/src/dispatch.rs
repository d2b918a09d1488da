//! The mode-dependent key dispatcher.
//!
//! One key event at a time is routed through the current [`InputMode`]:
//! in `Normal` mode keys drive application commands (start editing, quit);
//! in `Editing` mode press events edit the buffer, submit the line, or leave
//! editing. Everything else is silently ignored. The whole transition
//! relation is the spec function [`step`].

use vstd::prelude::*;

verus! {

use crate::editor::delete_step;
use crate::editor::insert_step;
use crate::editor::left_step;
use crate::editor::right_step;
use crate::editor::submit_step;
use crate::editor::App;
use crate::editor::EditorView;
use crate::InputMode;

/// The keys the dispatcher distinguishes; every other key is `Other` and is
/// ignored in both modes.
#[derive(Clone, Copy, PartialEq, Eq, Structural, Debug)]
pub enum KeyCode {
    Char(char),
    Enter,
    Backspace,
    Left,
    Right,
    Esc,
    Other,
}

/// How a key event was produced. Only `Press` events act on the text, so
/// platforms that report both press and release do not insert twice.
#[derive(Clone, Copy, PartialEq, Eq, Structural, Debug)]
pub enum KeyEventKind {
    Press,
    Repeat,
    Release,
}

/// One key event: which key, and whether it was pressed, repeated or
/// released.
#[derive(Clone, Copy, PartialEq, Eq, Structural, Debug)]
pub struct KeyEvent {
    pub code: KeyCode,
    pub kind: KeyEventKind,
}

/// The transition relation of the editor: the state after one key event,
/// and whether the application should quit.
pub open spec fn step(v: EditorView, key: KeyEvent) -> (EditorView, bool) {
    match v.mode {
        InputMode::Normal => match key.code {
            KeyCode::Char(c) => if c == 'e' {
                (EditorView { mode: InputMode::Editing, ..v }, false)
            } else if c == 'q' {
                (v, true)
            } else {
                (v, false)
            },
            _ => (v, false),
        },
        InputMode::Editing => if key.kind == KeyEventKind::Press {
            match key.code {
                KeyCode::Enter => (submit_step(v), false),
                KeyCode::Char(c) => (insert_step(v, c), false),
                KeyCode::Backspace => (delete_step(v), false),
                KeyCode::Left => (left_step(v), false),
                KeyCode::Right => (right_step(v), false),
                KeyCode::Esc => (EditorView { mode: InputMode::Normal, ..v }, false),
                KeyCode::Other => (v, false),
            }
        } else {
            (v, false)
        },
    }
}

impl App {
    /// Routes one key event through the mode machine: edits the buffer,
    /// submits, or switches mode as [`step`] says. Returns true exactly when
    /// the event is the quit command observed in `Normal` mode.
    pub fn handle_key(&mut self, key: KeyEvent) -> (quit: bool)
        ensures
            final(self)@ == step(old(self)@, key).0,
            quit == step(old(self)@, key).1,
    {
        match self.input_mode() {
            InputMode::Normal => match key.code {
                KeyCode::Char(c) => {
                    if c == 'e' {
                        self.set_input_mode(InputMode::Editing);
                        false
                    } else {
                        c == 'q'
                    }
                },
                _ => false,
            },
            InputMode::Editing => {
                if key.kind == KeyEventKind::Press {
                    match key.code {
                        KeyCode::Enter => self.submit_message(),
                        KeyCode::Char(to_insert) => self.enter_char(to_insert),
                        KeyCode::Backspace => self.delete_char(),
                        KeyCode::Left => self.move_cursor_left(),
                        KeyCode::Right => self.move_cursor_right(),
                        KeyCode::Esc => self.set_input_mode(InputMode::Normal),
                        KeyCode::Other => {},
                    }
                }
                false
            },
        }
    }
}

} // verus!
