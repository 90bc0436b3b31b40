//! The events that a window reports.

use crate::keys::{KeyState, Location, LogicalKey, PhysicalKey};
use vstd::prelude::*;

verus! {

/// A size in physical pixels.
#[derive(Clone, Copy, Debug, Default, PartialEq, Eq, Hash)]
pub struct PhysicalSize {
    pub width: u32,
    pub height: u32,
}

/// A position in physical pixels.
#[derive(Clone, Copy, Debug, Default, PartialEq, Eq, Hash)]
pub struct PhysicalPosition {
    pub x: i32,
    pub y: i32,
}

/// An 8-bit RGB colour.
#[derive(Clone, Copy, Debug, Default, PartialEq, Eq, Hash)]
pub struct Rgb8 {
    pub r: u8,
    pub g: u8,
    pub b: u8,
}

/// The modifier keys held during a key event.
#[derive(Clone, Copy, Debug, Default, PartialEq, Eq, Hash)]
pub struct Modifiers {
    pub shift: bool,
    pub ctrl: bool,
    pub alt: bool,
    pub meta: bool,
}

/// A key going down or coming up.
#[derive(Clone, Debug, PartialEq, Eq, Hash)]
pub struct KeyEvent {
    pub state: KeyState,
    pub key: LogicalKey,
    pub code: PhysicalKey,
    pub location: Location,
    pub modifiers: Modifiers,
    /// The key is held down and the system repeats it.
    pub repeat: bool,
}

/// A mouse button.
#[derive(Clone, Copy, Debug, PartialEq, Eq, Hash)]
pub enum MouseButton {
    Left,
    Right,
    Middle,
    Back,
    Forward,
}

/// What happened to a mouse button.
#[derive(Clone, Copy, Debug, PartialEq, Eq, Hash)]
pub enum ButtonAction {
    Pressed,
    Released,
    DoubleClicked,
}

/// A mouse button event.
#[derive(Clone, Copy, Debug, PartialEq, Eq, Hash)]
pub struct PointerEvent {
    pub button: MouseButton,
    pub action: ButtonAction,
}

/// An event about a window.
#[derive(Clone, Debug, PartialEq, Eq, Hash)]
pub enum WindowEvent {
    /// The user asked to close the window.
    CloseRequest,
    /// The window needs to be drawn.
    Draw,
    Resized(PhysicalSize),
    Moved(PhysicalPosition),
    Keyboard(KeyEvent),
    Pointer(PointerEvent),
}

/// What a window's event loop yields.
#[derive(Clone, Debug, PartialEq, Eq, Hash)]
pub enum Event {
    /// Nothing that concerns the window happened.
    Nothing,
    Window(WindowEvent),
}

} // verus!
