//! Input events as plain values.
//!
//! A host turns whatever its windowing layer reports into these records and
//! delivers them to a rendered button. Nothing here computes: the types only
//! carry what the button's handlers read and what an activation reports.

use vstd::prelude::*;

verus! {

/// The direction of a navigation button of a mouse.
#[derive(Clone, Copy, Debug, PartialEq, Eq, Structural)]
pub enum NavigationDirection {
    Back,
    Forward,
}

/// The button of a pointer event.
#[derive(Clone, Copy, Debug, PartialEq, Eq, Structural)]
pub enum MouseButton {
    Left,
    Right,
    Middle,
    Navigate(NavigationDirection),
}

/// The modifier keys held while an event happened.
#[derive(Clone, Copy, Debug, PartialEq, Eq, Structural)]
pub struct Modifiers {
    pub control: bool,
    pub alt: bool,
    pub shift: bool,
    pub platform: bool,
    pub function: bool,
}

impl Modifiers {
    /// No modifier key held.
    pub open spec fn spec_none() -> Modifiers {
        Modifiers { control: false, alt: false, shift: false, platform: false, function: false }
    }

    /// No modifier key held.
    #[verifier::when_used_as_spec(spec_none)]
    pub fn none() -> (m: Modifiers)
        ensures
            m == Modifiers::spec_none(),
    {
        Modifiers { control: false, alt: false, shift: false, platform: false, function: false }
    }
}

/// A length in logical pixels, kept as the bit pattern of a 32-bit IEEE 754
/// number. The button never does arithmetic on a length; keeping the bits
/// means that the length a host hands in is the length a handler gets back.
/// The zero length has every bit clear.
#[derive(Clone, Copy, Debug, PartialEq, Eq, Structural)]
pub struct Pixels {
    pub bits: u32,
}

/// A position in a window.
#[derive(Clone, Copy, Debug, PartialEq, Eq, Structural)]
pub struct Point {
    pub x: Pixels,
    pub y: Pixels,
}

impl Point {
    /// The origin: both lengths zero.
    pub open spec fn origin() -> Point {
        Point { x: Pixels { bits: 0 }, y: Pixels { bits: 0 } }
    }
}

impl Default for Point {
    fn default() -> (p: Point)
        ensures
            p == Point::origin(),
    {
        Point { x: Pixels { bits: 0 }, y: Pixels { bits: 0 } }
    }
}

/// A pointer button went down.
#[derive(Clone, Copy, Debug, PartialEq, Eq, Structural)]
pub struct MouseDownEvent {
    pub button: MouseButton,
    pub position: Point,
    pub modifiers: Modifiers,
    pub click_count: usize,
    /// Whether this press also brought the window to the front.
    pub first_mouse: bool,
}

/// A pointer button came up.
#[derive(Clone, Copy, Debug, PartialEq, Eq, Structural)]
pub struct MouseUpEvent {
    pub button: MouseButton,
    pub position: Point,
    pub modifiers: Modifiers,
    pub click_count: usize,
}

/// An activation: a press and the release that completed it.
#[derive(Clone, Copy, Debug, PartialEq, Eq, Structural)]
pub struct ClickEvent {
    pub down: MouseDownEvent,
    pub up: MouseUpEvent,
}

/// A key together with the modifiers held with it.
#[derive(Debug, PartialEq, Eq)]
pub struct Keystroke {
    pub modifiers: Modifiers,
    /// The name of the key, such as `"enter"` or `"a"`.
    pub key: String,
}

impl Clone for Keystroke {
    fn clone(&self) -> (copy: Keystroke)
        ensures
            copy == *self,
    {
        Keystroke { modifiers: self.modifiers, key: self.key.clone() }
    }
}

/// A key went down.
#[derive(Debug, PartialEq, Eq)]
pub struct KeyDownEvent {
    pub keystroke: Keystroke,
    pub is_held: bool,
}

impl Clone for KeyDownEvent {
    fn clone(&self) -> (copy: KeyDownEvent)
        ensures
            copy == *self,
    {
        KeyDownEvent { keystroke: self.keystroke.clone(), is_held: self.is_held }
    }
}

/// A key came up.
#[derive(Debug, PartialEq, Eq)]
pub struct KeyUpEvent {
    pub keystroke: Keystroke,
}

impl Clone for KeyUpEvent {
    fn clone(&self) -> (copy: KeyUpEvent)
        ensures
            copy == *self,
    {
        KeyUpEvent { keystroke: self.keystroke.clone() }
    }
}

/// Everything a host may deliver to a rendered button.
#[derive(Debug, PartialEq, Eq)]
pub enum InputEvent {
    MouseDown(MouseDownEvent),
    MouseUp(MouseUpEvent),
    /// A press and a release that the host recognised as one gesture.
    Click(ClickEvent),
    KeyDown(KeyDownEvent),
    KeyUp(KeyUpEvent),
}

impl Clone for InputEvent {
    fn clone(&self) -> (copy: InputEvent)
        ensures
            copy == *self,
    {
        match self {
            InputEvent::MouseDown(event) => InputEvent::MouseDown(*event),
            InputEvent::MouseUp(event) => InputEvent::MouseUp(*event),
            InputEvent::Click(event) => InputEvent::Click(*event),
            InputEvent::KeyDown(event) => InputEvent::KeyDown(event.clone()),
            InputEvent::KeyUp(event) => InputEvent::KeyUp(event.clone()),
        }
    }
}

} // verus!
