//! The input task's decisions: which action a key stands for, and what to
//! do at each turn of the task's loop.

use crate::app::AppAction;
use vstd::prelude::*;

verus! {

/// How long the input task waits between two looks at the terminal, in
/// milliseconds. A shutdown is noticed within this time.
pub const INPUT_TICK_MILLIS: u64 = 50;

/// The keys that the client tells apart.
#[derive(Debug, Clone, Copy)]
pub enum Key {
    Esc,
    Enter,
    Backspace,
    Up,
    Down,
    Char(char),
    /// Any key that the client has no use for.
    Other,
}

/// What the input task finds when it wakes up.
#[derive(Debug, Clone, Copy)]
pub enum InputEvent {
    /// The shutdown signal was raised.
    Shutdown,
    /// The tick passed and the terminal reports a key event: `pressed`
    /// tells a press from a release or a repeat.
    Key { key: Key, pressed: bool },
    /// The tick passed with nothing to read, or with an event that is no
    /// key event.
    Idle,
}

/// What the input task does next.
#[derive(Debug, Clone)]
pub enum InputStep {
    /// End the task.
    Stop,
    /// Send this action to the dispatcher, then go on.
    Send(AppAction),
    /// Go on with the next tick.
    Wait,
}

/// The action that a key stands for, whatever the state: escape, submit,
/// backspace, the two moves of the selection, or a character of input.
pub open spec fn key_action(key: Key) -> Option<AppAction> {
    match key {
        Key::Esc => Some(AppAction::InputEscape),
        Key::Enter => Some(AppAction::InputSubmit),
        Key::Backspace => Some(AppAction::InputBackspace),
        Key::Up => Some(AppAction::SelectPrevious),
        Key::Down => Some(AppAction::SelectNext),
        Key::Char(c) => Some(AppAction::InputChar(c)),
        Key::Other => None,
    }
}

/// The input task's step for an event: stop on shutdown, send the action
/// of a pressed key that has one, wait otherwise.
pub open spec fn input_step(event: InputEvent) -> InputStep {
    match event {
        InputEvent::Shutdown => InputStep::Stop,
        InputEvent::Key { key, pressed } => if pressed {
            match key_action(key) {
                Some(action) => InputStep::Send(action),
                None => InputStep::Wait,
            }
        } else {
            InputStep::Wait
        },
        InputEvent::Idle => InputStep::Wait,
    }
}

/// Maps a key to the one action it stands for.
pub fn action_for_key(key: Key) -> (action: Option<AppAction>)
    ensures
        action == key_action(key),
{
    match key {
        Key::Esc => Some(AppAction::InputEscape),
        Key::Enter => Some(AppAction::InputSubmit),
        Key::Backspace => Some(AppAction::InputBackspace),
        Key::Up => Some(AppAction::SelectPrevious),
        Key::Down => Some(AppAction::SelectNext),
        Key::Char(c) => Some(AppAction::InputChar(c)),
        Key::Other => None,
    }
}

/// Decides one turn of the input task: whether to stop, to send an action
/// to the dispatcher, or to wait for the next tick.
pub fn handle_input_events(event: InputEvent) -> (step: InputStep)
    ensures
        step == input_step(event),
{
    match event {
        InputEvent::Shutdown => InputStep::Stop,
        InputEvent::Key { key, pressed } => {
            if !pressed {
                return InputStep::Wait;
            }
            match action_for_key(key) {
                Some(action) => InputStep::Send(action),
                None => InputStep::Wait,
            }
        },
        InputEvent::Idle => InputStep::Wait,
    }
}

} // verus!
