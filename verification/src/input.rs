//! Input events delivered by the windowing system, and the one application
//! hotkey the scheduler recognizes: Escape requests that a window close.

use vstd::prelude::*;

verus! {

/// A keyboard key, as far as the core cares: Escape or anything else.
#[derive(Clone, Copy, PartialEq, Eq, Structural, Debug)]
pub enum Key {
    Escape,
    Other,
}

/// What happened to a key.
#[derive(Clone, Copy, PartialEq, Eq, Structural, Debug)]
pub enum KeyAction {
    Press,
    Release,
    Repeat,
}

/// One pending event from a window's queue.
#[derive(Clone, Copy, PartialEq, Eq, Structural, Debug)]
pub enum InputEvent {
    Key(Key, KeyAction),
    Other,
}

/// True for the one recognized hotkey: an Escape key press.
pub open spec fn is_escape_press(e: InputEvent) -> bool {
    match e {
        InputEvent::Key(Key::Escape, KeyAction::Press) => true,
        _ => false,
    }
}

/// True when the drained event batch holds an Escape key press.
pub open spec fn has_escape(events: Seq<InputEvent>) -> bool {
    exists|i: int| 0 <= i < events.len() && is_escape_press(events[i])
}

/// Scans one frame's drained events for the close hotkey, exactly as the
/// scheduler does once per context per frame.
pub fn wants_close(events: &Vec<InputEvent>) -> (r: bool)
    ensures
        r == has_escape(events@),
{
    let mut found = false;
    let mut i: usize = 0;
    while i < events.len()
        invariant
            i <= events@.len(),
            found == exists|j: int| 0 <= j < i && is_escape_press(events@[j]),
        decreases events@.len() - i,
    {
        let hit = match events[i] {
            InputEvent::Key(Key::Escape, KeyAction::Press) => true,
            _ => false,
        };
        if hit {
            found = true;
        }
        i = i + 1;
    }
    found
}

} // verus!
