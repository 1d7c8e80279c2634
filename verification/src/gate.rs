//! The activation gate: which raw input activates a button.
//!
//! A button is in one of two states for as long as one rendering of it lives.
//! `Unattached` has no handlers and ignores every event. `Armed` turns a
//! press of the left pointer button into a focus request, a click into an
//! activation, and the release of the space or the enter key into an
//! activation that is made up on the spot. No event changes the state.
//!
//! The functions here decide and do nothing else: they take what a handler
//! can see and return a [`Reaction`] for the host to carry out.

use vstd::prelude::*;
use crate::event::{
    ClickEvent, InputEvent, KeyUpEvent, Modifiers, MouseButton, MouseDownEvent, MouseUpEvent,
    Point,
};

verus! {

/// Whether a rendered button listens to input.
#[derive(Clone, Copy, Debug, PartialEq, Eq, Structural)]
pub enum GateState {
    /// No handler is attached: the button is disabled or has no callback.
    Unattached,
    /// The handlers are attached and wait for input.
    Armed,
}

/// What a handler asks of its host in answer to one event.
#[derive(Clone, Copy, Debug, PartialEq, Eq, Structural)]
pub struct Reaction {
    /// Suppress the host's default handling of the event.
    pub prevent_default: bool,
    /// Move keyboard focus to the button.
    pub request_focus: bool,
    /// Invoke the activation callback, once, with this event.
    pub activation: Option<ClickEvent>,
}

impl Reaction {
    /// The reaction that asks for nothing.
    pub open spec fn spec_none() -> Reaction {
        Reaction { prevent_default: false, request_focus: false, activation: None }
    }

    /// The reaction that asks for nothing.
    #[verifier::when_used_as_spec(spec_none)]
    pub fn none() -> (r: Reaction)
        ensures
            r == Reaction::spec_none(),
    {
        Reaction { prevent_default: false, request_focus: false, activation: None }
    }
}

/// The state of a button with the given configuration: armed exactly when it
/// is enabled and has a callback.
pub open spec fn spec_gate_state(disabled: bool, has_callback: bool) -> GateState {
    if !disabled && has_callback {
        GateState::Armed
    } else {
        GateState::Unattached
    }
}

/// The key names whose release activates a button.
pub open spec fn activates(key: Seq<char>) -> bool {
    key == "space"@ || key == "enter"@
}

/// The activation that stands for a key release. There was no pointer, so
/// both halves sit at the origin with a click count of zero; the press
/// carries no modifiers and the release carries those of the key.
pub open spec fn spec_keyboard_click(modifiers: Modifiers) -> ClickEvent {
    ClickEvent {
        down: MouseDownEvent {
            button: MouseButton::Left,
            position: Point::origin(),
            modifiers: Modifiers::spec_none(),
            click_count: 0,
            first_mouse: false,
        },
        up: MouseUpEvent {
            button: MouseButton::Left,
            position: Point::origin(),
            modifiers: modifiers,
            click_count: 0,
        },
    }
}

/// What an armed button answers to a press: nothing unless it is the left
/// button; else the default handling is suppressed, and focus is asked for
/// unless the button has it already.
pub open spec fn spec_on_mouse_down(event: MouseDownEvent, focused: bool) -> Reaction {
    if event.button == MouseButton::Left {
        Reaction { prevent_default: true, request_focus: !focused, activation: None }
    } else {
        Reaction::spec_none()
    }
}

/// What an armed button answers to a click: one activation with the
/// gesture's own data.
pub open spec fn spec_on_click(event: ClickEvent) -> Reaction {
    Reaction { prevent_default: false, request_focus: false, activation: Some(event) }
}

/// What an armed button answers to a key release: one made-up activation for
/// space and enter, nothing for any other key.
pub open spec fn spec_on_key_up(event: KeyUpEvent) -> Reaction {
    if activates(event.keystroke.key@) {
        Reaction {
            prevent_default: false,
            request_focus: false,
            activation: Some(spec_keyboard_click(event.keystroke.modifiers)),
        }
    } else {
        Reaction::spec_none()
    }
}

/// The whole machine: the answer of a button in `state` to `event`, given
/// whether the button holds keyboard focus when the event arrives.
pub open spec fn spec_react(state: GateState, focused: bool, event: InputEvent) -> Reaction {
    match state {
        GateState::Unattached => Reaction::spec_none(),
        GateState::Armed => match event {
            InputEvent::MouseDown(e) => spec_on_mouse_down(e, focused),
            InputEvent::Click(e) => spec_on_click(e),
            InputEvent::KeyUp(e) => spec_on_key_up(e),
            InputEvent::MouseUp(_) => Reaction::spec_none(),
            InputEvent::KeyDown(_) => Reaction::spec_none(),
        },
    }
}

/// Decides whether a button with this configuration gets its handlers.
#[verifier::when_used_as_spec(spec_gate_state)]
pub fn gate_state(disabled: bool, has_callback: bool) -> (state: GateState)
    ensures
        state == spec_gate_state(disabled, has_callback),
{
    if !disabled && has_callback {
        GateState::Armed
    } else {
        GateState::Unattached
    }
}

/// Tells whether the release of the key named `key` activates a button.
pub fn is_activation_key(key: &str) -> (yes: bool)
    ensures
        yes == activates(key@),
{
    let name: String = key.to_owned();
    name == "space".to_owned() || name == "enter".to_owned()
}

/// Builds the activation that stands for a key release.
#[verifier::when_used_as_spec(spec_keyboard_click)]
pub fn keyboard_click(modifiers: Modifiers) -> (click: ClickEvent)
    ensures
        click == spec_keyboard_click(modifiers),
{
    ClickEvent {
        down: MouseDownEvent {
            button: MouseButton::Left,
            position: Point::default(),
            modifiers: Modifiers::none(),
            click_count: 0,
            first_mouse: false,
        },
        up: MouseUpEvent {
            button: MouseButton::Left,
            position: Point::default(),
            modifiers: modifiers,
            click_count: 0,
        },
    }
}

/// The press handler of an armed button.
#[verifier::when_used_as_spec(spec_on_mouse_down)]
pub fn on_mouse_down(event: MouseDownEvent, focused: bool) -> (reaction: Reaction)
    ensures
        reaction == spec_on_mouse_down(event, focused),
{
    match event.button {
        MouseButton::Left => Reaction {
            prevent_default: true,
            request_focus: !focused,
            activation: None,
        },
        _ => Reaction::none(),
    }
}

/// The click handler of an armed button.
#[verifier::when_used_as_spec(spec_on_click)]
pub fn on_click(event: ClickEvent) -> (reaction: Reaction)
    ensures
        reaction == spec_on_click(event),
{
    Reaction { prevent_default: false, request_focus: false, activation: Some(event) }
}

/// The key-release handler of an armed button.
pub fn on_key_up(event: &KeyUpEvent) -> (reaction: Reaction)
    ensures
        reaction == spec_on_key_up(*event),
{
    if is_activation_key(event.keystroke.key.as_str()) {
        Reaction {
            prevent_default: false,
            request_focus: false,
            activation: Some(keyboard_click(event.keystroke.modifiers)),
        }
    } else {
        Reaction::none()
    }
}

/// Runs the machine for one event.
pub fn react(state: GateState, focused: bool, event: &InputEvent) -> (reaction: Reaction)
    ensures
        reaction == spec_react(state, focused, *event),
{
    match state {
        GateState::Unattached => Reaction::none(),
        GateState::Armed => match event {
            InputEvent::MouseDown(e) => on_mouse_down(*e, focused),
            InputEvent::Click(e) => on_click(*e),
            InputEvent::KeyUp(e) => on_key_up(e),
            InputEvent::MouseUp(_) => Reaction::none(),
            InputEvent::KeyDown(_) => Reaction::none(),
        },
    }
}

} // verus!
