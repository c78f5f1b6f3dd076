//! Pointer event payloads handed to the engine.

use vstd::prelude::*;

verus! {

/// Whether a pointer button went down or came up.
#[derive(Clone, Copy, Debug, PartialEq, Eq, Structural)]
pub enum ButtonState {
    Pressed,
    Released,
}

/// A pointer button as the host names it.
#[derive(Clone, Copy, Debug, PartialEq, Eq, Structural)]
pub enum PointerButton {
    Primary,
    Secondary,
    Middle,
    Other(u16),
}

/// The engine's mouse button identifiers; `NoButton` is its neutral value.
#[derive(Clone, Copy, Debug, PartialEq, Eq, Structural)]
pub enum NativeButton {
    NoButton,
    Left,
    Middle,
    Right,
}

/// The engine's mouse event kinds.
#[derive(Clone, Copy, Debug, PartialEq, Eq, Structural)]
pub enum MouseEventKind {
    MouseMoved,
    MouseDown,
    MouseUp,
}

/// A mouse event in the engine's coordinate space (vertical axis already
/// flipped by the caller).
#[derive(Clone, Copy, Debug, PartialEq, Eq, Structural)]
pub struct MouseEvent {
    pub kind: MouseEventKind,
    pub x: i32,
    pub y: i32,
    pub button: NativeButton,
}

/// The engine button a host button maps to: the three known buttons map to
/// their counterparts, every other button to the neutral value.
pub open spec fn spec_native_button(b: PointerButton) -> NativeButton {
    match b {
        PointerButton::Primary => NativeButton::Left,
        PointerButton::Secondary => NativeButton::Right,
        PointerButton::Middle => NativeButton::Middle,
        PointerButton::Other(_) => NativeButton::NoButton,
    }
}

/// The event kind for a button transition.
pub open spec fn spec_button_kind(s: ButtonState) -> MouseEventKind {
    match s {
        ButtonState::Pressed => MouseEventKind::MouseDown,
        ButtonState::Released => MouseEventKind::MouseUp,
    }
}

impl PointerButton {
    /// The engine button for this host button; unrecognised buttons become
    /// `NativeButton::NoButton` rather than an error.
    pub fn to_native(self) -> (r: NativeButton)
        ensures
            r == spec_native_button(self),
    {
        match self {
            PointerButton::Primary => NativeButton::Left,
            PointerButton::Secondary => NativeButton::Right,
            PointerButton::Middle => NativeButton::Middle,
            PointerButton::Other(_) => NativeButton::NoButton,
        }
    }
}

impl ButtonState {
    /// The engine event kind for this transition.
    pub fn to_kind(self) -> (r: MouseEventKind)
        ensures
            r == spec_button_kind(self),
    {
        match self {
            ButtonState::Pressed => MouseEventKind::MouseDown,
            ButtonState::Released => MouseEventKind::MouseUp,
        }
    }
}

impl MouseEvent {
    pub open spec fn motion_spec(x: i32, y: i32) -> MouseEvent {
        MouseEvent { kind: MouseEventKind::MouseMoved, x, y, button: NativeButton::NoButton }
    }

    pub open spec fn button_spec(x: i32, y: i32, button: PointerButton, state: ButtonState) -> MouseEvent {
        MouseEvent { kind: spec_button_kind(state), x, y, button: spec_native_button(button) }
    }

    /// A pointer-move event at `(x, y)`, carrying no button.
    pub fn motion(x: i32, y: i32) -> (r: MouseEvent)
        ensures
            r == MouseEvent::motion_spec(x, y),
    {
        MouseEvent { kind: MouseEventKind::MouseMoved, x, y, button: NativeButton::NoButton }
    }

    /// A button event at `(x, y)`.
    pub fn button(x: i32, y: i32, button: PointerButton, state: ButtonState) -> (r: MouseEvent)
        ensures
            r == MouseEvent::button_spec(x, y, button, state),
    {
        MouseEvent { kind: state.to_kind(), x, y, button: button.to_native() }
    }
}

} // verus!
