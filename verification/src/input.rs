//! What the program does with one poll of the terminal: the events it reads and
//! the action each one calls for.

use vstd::prelude::*;
use crate::view::cells_to_dots;

verus! {

/// The key of a key event, as far as the program tells keys apart.
#[derive(Debug, Clone, Copy, PartialEq, Eq, Structural)]
pub enum KeyInput {
    Char(char),
    Esc,
    Other,
}

/// A terminal event.
#[derive(Debug, Clone, Copy, PartialEq, Eq, Structural)]
pub enum InputEvent {
    /// A key event; `pressed` is false for releases and repeats.
    Key { key: KeyInput, pressed: bool },
    /// The terminal now has `columns` x `rows` cells.
    Resize { columns: u16, rows: u16 },
    /// Any other event (mouse, focus, paste).
    Other,
}

/// What the main loop does after a poll.
#[derive(Debug, Clone, Copy, PartialEq, Eq, Structural)]
pub enum InputAction {
    /// Leave the loop.
    Quit,
    /// Resize the world to `width` x `height` braille dots, then go on.
    Resize { width: u32, height: u32 },
    /// Go on to the next frame.
    Continue,
}

/// The action for a poll that saw `event` (`None` when no event arrived in time):
/// a press of `q` or Escape quits, a resize to `c` x `r` cells resizes the world
/// to `2c` x `4r` dots, and everything else leaves the loop running.
pub open spec fn input_action(event: Option<InputEvent>) -> InputAction {
    match event {
        Some(InputEvent::Key { key, pressed }) => {
            if pressed && (key == KeyInput::Char('q') || key == KeyInput::Esc) {
                InputAction::Quit
            } else {
                InputAction::Continue
            }
        },
        Some(InputEvent::Resize { columns, rows }) => InputAction::Resize {
            width: (2 * columns) as u32,
            height: (4 * rows) as u32,
        },
        _ => InputAction::Continue,
    }
}

/// Only a press of `q` or Escape quits: a key event quits exactly when it is a
/// press of one of those two keys, and every other key event (any other character,
/// any other key, any release) lets the loop go on.
pub proof fn lemma_quit_only_on_q_or_escape(key: KeyInput, pressed: bool)
    ensures
        input_action(Some(InputEvent::Key { key, pressed })) == InputAction::Quit <==> (pressed && (
        key == KeyInput::Char('q') || key == KeyInput::Esc)),
        !(pressed && (key == KeyInput::Char('q') || key == KeyInput::Esc)) ==> input_action(
            Some(InputEvent::Key { key, pressed }),
        ) == InputAction::Continue,
{
}

/// Any character other than `q`, pressed, lets the loop go on.
pub proof fn lemma_other_characters_continue(c: char)
    requires
        c != 'q',
    ensures
        input_action(Some(InputEvent::Key { key: KeyInput::Char(c), pressed: true }))
            == InputAction::Continue,
{
}

/// A resize never quits: it resizes the world to two dots per column and four per
/// row of the new terminal; no event and other events let the loop go on.
pub proof fn lemma_resize_and_idle_polls(columns: u16, rows: u16)
    ensures
        input_action(Some(InputEvent::Resize { columns, rows })) == (InputAction::Resize {
            width: (2 * columns) as u32,
            height: (4 * rows) as u32,
        }),
        input_action(None) == InputAction::Continue,
        input_action(Some(InputEvent::Other)) == InputAction::Continue,
{
}

/// Decides what the main loop does with the outcome of one poll.
pub fn decide_input(event: Option<InputEvent>) -> (action: InputAction)
    ensures
        action == input_action(event),
        action == InputAction::Quit <==> (event matches Some(InputEvent::Key { key, pressed })
            && pressed && (key == KeyInput::Char('q') || key == KeyInput::Esc)),
        event matches Some(InputEvent::Resize { columns, rows }) ==> action == (InputAction::Resize {
            width: (2 * columns) as u32,
            height: (4 * rows) as u32,
        }),
        !(event matches Some(InputEvent::Resize { .. })) && action != InputAction::Quit ==> action
            == InputAction::Continue,
{
    match event {
        Some(InputEvent::Key { key, pressed }) => {
            let quit_key = match key {
                KeyInput::Char(c) => c == 'q',
                KeyInput::Esc => true,
                KeyInput::Other => false,
            };
            if pressed && quit_key {
                InputAction::Quit
            } else {
                InputAction::Continue
            }
        },
        Some(InputEvent::Resize { columns, rows }) => {
            let (width, height) = cells_to_dots(columns, rows);
            InputAction::Resize { width, height }
        },
        Some(InputEvent::Other) | None => InputAction::Continue,
    }
}

} // verus!
