//! What holds of every button, every window and every run of input.
//!
//! Each statement here is proved from the definitions that the contracts of
//! the executable functions are written in, so it holds of whatever those
//! functions return.

use vstd::prelude::*;
use crate::button::{deliver, run, ButtonView};
use crate::event::{ClickEvent, InputEvent, MouseButton, MouseDownEvent};
use crate::focus::{FocusId, WindowView};
use crate::gate::{activates, spec_keyboard_click, spec_react, GateState, Reaction};
use crate::identity::ElementIdView;

verus! {

/// The activation that an event stands for, if it stands for one: a click
/// for itself, the release of space or enter for a made-up click, anything
/// else for nothing.
pub open spec fn activation_of(event: InputEvent) -> Option<ClickEvent> {
    match event {
        InputEvent::Click(click) => Some(click),
        InputEvent::KeyUp(release) => if activates(release.keystroke.key@) {
            Some(spec_keyboard_click(release.keystroke.modifiers))
        } else {
            None
        },
        _ => None,
    }
}

/// The activations that a run of events stands for, in order.
pub open spec fn activations_of(events: Seq<InputEvent>) -> Seq<ClickEvent>
    decreases events.len(),
{
    if events.len() == 0 {
        Seq::empty()
    } else {
        match activation_of(events.last()) {
            Some(click) => activations_of(events.drop_last()).push(click),
            None => activations_of(events.drop_last()),
        }
    }
}

/// A disabled button is inert. It is rendered without handlers, whether or
/// not it has a callback; and whatever events arrive, in whatever window,
/// the callback is never invoked and the window, its focus included, stays
/// exactly as it was.
pub proof fn lemma_disabled_is_inert<F>(
    button: ButtonView<F>,
    target: FocusId,
    window: WindowView,
    events: Seq<InputEvent>,
)
    requires
        button.disabled,
    ensures
        button.state() == GateState::Unattached,
        button.handler() is None,
        run(button.state(), target, window, events) == (window, Seq::<ClickEvent>::empty()),
    decreases events.len(),
{
    if events.len() > 0 {
        lemma_disabled_is_inert(button, target, window, events.drop_last());
    }
}

/// A button without a callback is as inert as a disabled one.
pub proof fn lemma_no_callback_is_inert<F>(
    button: ButtonView<F>,
    target: FocusId,
    window: WindowView,
    events: Seq<InputEvent>,
)
    requires
        button.on_click is None,
    ensures
        button.state() == GateState::Unattached,
        button.handler() is None,
        run(button.state(), target, window, events) == (window, Seq::<ClickEvent>::empty()),
    decreases events.len(),
{
    if events.len() > 0 {
        lemma_no_callback_is_inert(button, target, window, events.drop_last());
    }
}

/// An enabled button with a callback is armed, and hands its callback to
/// its handlers. Each click then activates it once, with the click's own
/// data; each release of space or enter activates it once, with a click
/// made up from the key's modifiers; and nothing else activates it, whether
/// or not it holds focus.
pub proof fn lemma_armed_activates_once<F>(button: ButtonView<F>, focused: bool, event: InputEvent)
    requires
        !button.disabled,
        button.on_click is Some,
    ensures
        button.state() == GateState::Armed,
        button.handler() == button.on_click,
        spec_react(button.state(), focused, event).activation == activation_of(event),
        event matches InputEvent::Click(click) ==> activation_of(event) == Some(click),
        event matches InputEvent::KeyUp(release) ==> activation_of(event) == (if release.keystroke.key@
            == "space"@ || release.keystroke.key@ == "enter"@ {
            Some(spec_keyboard_click(release.keystroke.modifiers))
        } else {
            None
        }),
        !(event is Click) && !(event is KeyUp) ==> activation_of(event) is None,
{
}

/// Over a whole run of events an armed button invokes its callback once for
/// each event that stands for an activation, in the order of the events,
/// and for no other reason.
pub proof fn lemma_armed_run_activations(
    target: FocusId,
    window: WindowView,
    events: Seq<InputEvent>,
)
    ensures
        run(GateState::Armed, target, window, events).1 == activations_of(events),
    decreases events.len(),
{
    if events.len() > 0 {
        lemma_armed_run_activations(target, window, events.drop_last());
    }
}

/// Resolving an identity a second time gives the handle of the first time
/// and changes nothing, whatever either resolution says about focus.
pub proof fn lemma_resolve_twice(
    window: WindowView,
    id: ElementIdView,
    first_auto_focus: bool,
    second_auto_focus: bool,
)
    ensures
        ({
            let first = window.resolve(id, first_auto_focus);
            let second = first.0.resolve(id, second_auto_focus);
            &&& first.0.handles.contains_key(id)
            &&& first.0.handles[id] == first.1
            &&& second.1 == first.1
            &&& second.0 == first.0
        }),
{
}

/// Creating a handle that asks for focus gives it focus at once, whoever
/// held it before, by one focus request. Creating one that does not ask
/// leaves focus, and the record of requests, alone. Either way the new
/// handle is a tab stop, and nothing but the new entry is added.
pub proof fn lemma_focus_at_creation(window: WindowView, id: ElementIdView, auto_focus: bool)
    requires
        !window.handles.contains_key(id),
    ensures
        ({
            let (after, handle) = window.resolve(id, auto_focus);
            &&& handle.tab_stop
            &&& after.handles == window.handles.insert(id, handle)
            &&& after.created == window.created + 1
            &&& after.default_prevented == window.default_prevented
            &&& auto_focus ==> after.focused == Some(handle.id) && after.focus_requests
                == window.focus_requests.push(handle.id)
            &&& !auto_focus ==> after.focused == window.focused && after.focus_requests
                == window.focus_requests
        }),
{
}

/// Resolving keeps a window well formed, and the handle of a new identity
/// is one that no other identity has.
pub proof fn lemma_resolve_keeps_handles_apart(
    window: WindowView,
    id: ElementIdView,
    auto_focus: bool,
)
    requires
        window.wf(),
        window.created < usize::MAX,
    ensures
        window.resolve(id, auto_focus).0.wf(),
        forall|other: ElementIdView|
            other != id && #[trigger] window.handles.contains_key(other) ==> window.handles[other].id
                != window.resolve(id, auto_focus).1.id,
{
    let (after, handle) = window.resolve(id, auto_focus);
    if !window.handles.contains_key(id) {
        assert(handle.id.index == window.created);
        assert forall|k: ElementIdView| #[trigger] after.handles.contains_key(k) implies after.handles[k].tab_stop
            && after.handles[k].id.index < after.created by {
            if k != id {
                assert(window.handles.contains_key(k));
            }
        }
        assert forall|j: ElementIdView, k: ElementIdView|
            after.handles.contains_key(j) && after.handles.contains_key(k) && j != k implies after.handles[j].id
            != after.handles[k].id by {
            if j != id {
                assert(window.handles.contains_key(j));
            }
            if k != id {
                assert(window.handles.contains_key(k));
            }
        }
    }
}

/// A press on an armed button that already holds focus asks for no focus:
/// the holder and the record of requests stay as they were. A press of the
/// left button still suppresses the default handling.
pub proof fn lemma_press_when_focused(target: FocusId, window: WindowView, press: MouseDownEvent)
    requires
        window.focused == Some(target),
    ensures
        ({
            let (after, reaction) = deliver(
                GateState::Armed,
                target,
                window,
                InputEvent::MouseDown(press),
            );
            &&& !reaction.request_focus
            &&& reaction.activation is None
            &&& reaction.prevent_default == (press.button == MouseButton::Left)
            &&& after.focused == window.focused
            &&& after.focus_requests == window.focus_requests
        }),
{
}

/// A press of the left button on an armed button that does not hold focus
/// asks for focus once, and activates nothing.
pub proof fn lemma_press_when_unfocused(target: FocusId, window: WindowView, press: MouseDownEvent)
    requires
        window.focused != Some(target),
        press.button == MouseButton::Left,
    ensures
        ({
            let (after, reaction) = deliver(
                GateState::Armed,
                target,
                window,
                InputEvent::MouseDown(press),
            );
            &&& reaction == (Reaction { prevent_default: true, request_focus: true, activation: None })
            &&& after.focused == Some(target)
            &&& after.focus_requests == window.focus_requests.push(target)
            &&& after.default_prevented
        }),
{
}

/// Focus comes before activation. After the press of a gesture the armed
/// button holds focus and its callback has not been invoked; the click that
/// completes the gesture then invokes it once and leaves the window alone.
pub proof fn lemma_press_then_click(
    target: FocusId,
    window: WindowView,
    press: MouseDownEvent,
    click: ClickEvent,
)
    requires
        press.button == MouseButton::Left,
    ensures
        ({
            let pressed = deliver(GateState::Armed, target, window, InputEvent::MouseDown(press));
            let clicked = deliver(GateState::Armed, target, pressed.0, InputEvent::Click(click));
            &&& pressed.1.activation is None
            &&& pressed.0.focused == Some(target)
            &&& clicked.1.activation == Some(click)
            &&& clicked.0 == pressed.0
            &&& run(
                GateState::Armed,
                target,
                window,
                seq![InputEvent::MouseDown(press), InputEvent::Click(click)],
            ) == (pressed.0, seq![click])
        }),
{
    let events = seq![InputEvent::MouseDown(press), InputEvent::Click(click)];
    let first = seq![InputEvent::MouseDown(press)];
    assert(events.drop_last() == first);
    assert(first.drop_last() == Seq::<InputEvent>::empty());
    assert(first.last() == InputEvent::MouseDown(press));
    assert(events.last() == InputEvent::Click(click));
    reveal_with_fuel(run, 3);
    assert(Seq::<ClickEvent>::empty().push(click) == seq![click]);
}

} // verus!
