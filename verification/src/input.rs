//! Input events, and which of them end the program.

use vstd::prelude::*;

verus! {

/// Key code of the Escape key.
pub const KEY_ESCAPE: i32 = 27;

/// One event from the window system, reduced to what the program reacts to.
#[derive(Clone, Copy, Debug, PartialEq, Eq)]
pub enum InputEvent {
    /// The user asked to close the window.
    Quit,
    /// A key went down. `keycode` is the key's code, where the press has one.
    KeyDown { keycode: Option<i32> },
    /// Any other event.
    Other,
}

impl InputEvent {
    /// Whether this event asks the program to end: a request to close the
    /// window, or a press of Escape.
    pub open spec fn requests_exit(self) -> bool {
        match self {
            InputEvent::Quit => true,
            InputEvent::KeyDown { keycode } => keycode == Some(KEY_ESCAPE),
            InputEvent::Other => false,
        }
    }

    /// Whether this event asks the program to end. Every other event has no
    /// effect.
    pub fn is_termination(&self) -> (exit: bool)
        ensures
            exit == self.requests_exit(),
    {
        match self {
            InputEvent::Quit => true,
            InputEvent::KeyDown { keycode: Some(code) } => *code == KEY_ESCAPE,
            InputEvent::KeyDown { keycode: None } => false,
            InputEvent::Other => false,
        }
    }
}

/// Whether some event of a batch asks the program to end.
pub open spec fn exit_requested(events: Seq<InputEvent>) -> bool {
    exists|i: int| 0 <= i < events.len() && #[trigger] events[i].requests_exit()
}

/// Goes through all events that were pending for one frame and says whether
/// the program should end: it should as soon as one of them, wherever it
/// stands in the batch, is a request to close the window or a press of
/// Escape. A batch without events asks for nothing.
pub fn poll_input(events: &[InputEvent]) -> (terminate: bool)
    ensures
        terminate == exit_requested(events@),
{
    let mut terminate = false;
    let mut i: usize = 0;
    while i < events.len()
        invariant
            i <= events.len(),
            terminate == exists|k: int| 0 <= k < i && #[trigger] events@[k].requests_exit(),
        decreases events.len() - i,
    {
        if events[i].is_termination() {
            terminate = true;
        }
        i += 1;
    }
    terminate
}

} // verus!
