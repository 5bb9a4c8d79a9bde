//! Input events and their demultiplexer.
//!
//! Every created input device feeds the same logical handler; an event
//! arrives tagged with the device kind that produced it, and the handler
//! matches first on the tag and then on the sub-kind. Sub-kinds this client
//! does not recognise are ignored on purpose: the protocol may grow new
//! event kinds, and an unknown one must not be an error.

use vstd::prelude::*;

verus! {

/// State of a pointer button as the server reports it.
#[derive(Clone, Copy, Debug, PartialEq, Eq, Structural)]
pub enum ButtonState {
    Pressed,
    Released,
}

/// State of a keyboard key as the server reports it.
#[derive(Clone, Copy, Debug, PartialEq, Eq, Structural)]
pub enum KeyState {
    Pressed,
    Released,
}

/// An event from a pointer device. Coordinates are surface-local, in the
/// wire protocol's 24.8 fixed-point units.
#[derive(Clone, Copy, Debug, PartialEq, Eq, Structural)]
pub enum PointerEvent {
    Enter { surface_x: i32, surface_y: i32 },
    Leave,
    Motion { surface_x: i32, surface_y: i32 },
    Button { button: u32, state: ButtonState },
    /// A sub-kind this client does not recognise.
    Unknown,
}

/// An event from a keyboard device.
#[derive(Clone, Copy, Debug, PartialEq, Eq, Structural)]
pub enum KeyboardEvent {
    Enter,
    Leave,
    Key { key: u32, state: KeyState },
    /// A sub-kind this client does not recognise.
    Unknown,
}

/// An input event tagged with the device kind that produced it.
#[derive(Clone, Copy, Debug, PartialEq, Eq, Structural)]
#[allow(inconsistent_fields)]
pub enum InputEvent {
    Pointer { event: PointerEvent },
    Keyboard { event: KeyboardEvent },
}

/// The observable effect of dispatching one input event: which handler arm
/// ran and with what data (the embedding program turns it into a log line).
/// `Ignored` is the explicit forward-compatible arm for unknown sub-kinds.
#[derive(Clone, Copy, Debug, PartialEq, Eq, Structural)]
#[allow(inconsistent_fields)]
pub enum Reaction {
    PointerEntered { surface_x: i32, surface_y: i32 },
    PointerLeft,
    PointerMoved { surface_x: i32, surface_y: i32 },
    PointerButton { button: u32, state: ButtonState },
    KeyboardFocusGained,
    KeyboardFocusLost,
    Key { key: u32, state: KeyState },
    Ignored,
}

/// The effect the demultiplexer owes for one input event.
pub open spec fn spec_demux(ev: InputEvent) -> Reaction {
    match ev {
        InputEvent::Pointer { event } => match event {
            PointerEvent::Enter { surface_x, surface_y } => Reaction::PointerEntered {
                surface_x,
                surface_y,
            },
            PointerEvent::Leave => Reaction::PointerLeft,
            PointerEvent::Motion { surface_x, surface_y } => Reaction::PointerMoved {
                surface_x,
                surface_y,
            },
            PointerEvent::Button { button, state } => Reaction::PointerButton { button, state },
            PointerEvent::Unknown => Reaction::Ignored,
        },
        InputEvent::Keyboard { event } => match event {
            KeyboardEvent::Enter => Reaction::KeyboardFocusGained,
            KeyboardEvent::Leave => Reaction::KeyboardFocusLost,
            KeyboardEvent::Key { key, state } => Reaction::Key { key, state },
            KeyboardEvent::Unknown => Reaction::Ignored,
        },
    }
}

/// Demultiplexes one tagged input event, matching exhaustively on tag and
/// sub-kind. Events never reorder here: each call handles exactly the event
/// it was given and returns its effect.
pub fn demux(ev: &InputEvent) -> (r: Reaction)
    ensures
        r == spec_demux(*ev),
{
    match *ev {
        InputEvent::Pointer { event } => match event {
            PointerEvent::Enter { surface_x, surface_y } => Reaction::PointerEntered {
                surface_x,
                surface_y,
            },
            PointerEvent::Leave => Reaction::PointerLeft,
            PointerEvent::Motion { surface_x, surface_y } => Reaction::PointerMoved {
                surface_x,
                surface_y,
            },
            PointerEvent::Button { button, state } => Reaction::PointerButton { button, state },
            PointerEvent::Unknown => Reaction::Ignored,
        },
        InputEvent::Keyboard { event } => match event {
            KeyboardEvent::Enter => Reaction::KeyboardFocusGained,
            KeyboardEvent::Leave => Reaction::KeyboardFocusLost,
            KeyboardEvent::Key { key, state } => Reaction::Key { key, state },
            KeyboardEvent::Unknown => Reaction::Ignored,
        },
    }
}

} // verus!
