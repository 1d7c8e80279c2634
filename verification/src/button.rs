//! The button: its configuration, its rendering, and the delivery of input.
//!
//! A [`Button`] is built afresh each time its owner renders: [`button`] makes
//! one for an identity, and the builder methods set the rest. Rendering it
//! against a [`Window`] resolves the focus handle that belongs to the
//! identity and decides whether the handlers are attached; the
//! [`ButtonElement`] that comes out receives the input.

use std::rc::Rc;
use vstd::prelude::*;
use vstd::std_specs::convert::IntoSpec;
use crate::children::{ChildList, MAX_CHILDREN};
use crate::event::{ClickEvent, InputEvent};
use crate::focus::{creation, spec_creation, Creation, FocusHandle, FocusId, Window, WindowView};
use crate::gate::{gate_state, react, spec_gate_state, spec_react, GateState, Reaction};
use crate::identity::{ElementId, ElementIdView};

verus! {

/// The configuration of a button. `F` is the type of the activation callback.
pub struct Button<F> {
    id: ElementId,
    disabled: bool,
    children: ChildList,
    on_click: Option<Rc<F>>,
    auto_focus: bool,
}

/// What a [`Button`] is configured to be.
pub struct ButtonView<F> {
    /// The identity, which is also the key of the focus handle.
    pub id: ElementIdView,
    /// A disabled button gets no handlers.
    pub disabled: bool,
    /// The keys of the children, in order.
    pub children: Seq<u64>,
    /// The activation callback, if one was given.
    pub on_click: Option<F>,
    /// Whether the button asks for focus when its handle is created.
    pub auto_focus: bool,
}

impl<F> ButtonView<F> {
    /// The state in which the button is rendered: armed exactly when it is
    /// enabled and has a callback.
    pub open spec fn state(self) -> GateState {
        spec_gate_state(self.disabled, self.on_click is Some)
    }

    /// The callback that the handlers of the rendered button call: the one
    /// that was given, unless the button is disabled.
    pub open spec fn handler(self) -> Option<F> {
        if self.disabled {
            None
        } else {
            self.on_click
        }
    }
}

impl<F> View for Button<F> {
    type V = ButtonView<F>;

    closed spec fn view(&self) -> ButtonView<F> {
        ButtonView {
            id: self.id@,
            disabled: self.disabled,
            children: self.children@,
            on_click: match self.on_click {
                Some(callback) => Some(*callback),
                None => None,
            },
            auto_focus: self.auto_focus,
        }
    }
}

/// Makes an enabled button without children, without a callback, and
/// without a wish for focus.
pub fn button<F, I: Into<ElementId>>(id: I) -> (made: Button<F>)
    ensures
        I::obeys_into_spec() ==> made@.id == id.into_spec()@,
        exists|converted: ElementId| call_ensures(I::into, (id,), converted) && made@.id == converted@,
        !made@.disabled,
        made@.children == Seq::<u64>::empty(),
        made@.on_click is None,
        !made@.auto_focus,
{
    Button {
        id: id.into(),
        disabled: false,
        children: ChildList::new(),
        on_click: None,
        auto_focus: false,
    }
}

impl<F> Button<F> {
    /// Sets the callback that an activation invokes.
    pub fn on_click(self, on_click: F) -> (set: Self)
        ensures
            set@ == (ButtonView { on_click: Some(on_click), ..self@ }),
    {
        Button {
            id: self.id,
            disabled: self.disabled,
            children: self.children,
            on_click: Some(Rc::new(on_click)),
            auto_focus: self.auto_focus,
        }
    }

    /// Tells whether the button is disabled.
    pub fn is_disabled(&self) -> (disabled: bool)
        ensures
            disabled == self@.disabled,
    {
        self.disabled
    }

    /// Enables or disables the button.
    pub fn disabled(self, disabled: bool) -> (set: Self)
        ensures
            set@ == (ButtonView { disabled, ..self@ }),
    {
        Button {
            id: self.id,
            disabled,
            children: self.children,
            on_click: self.on_click,
            auto_focus: self.auto_focus,
        }
    }

    /// Sets whether the button asks for focus when its handle is created.
    pub fn auto_focus(self, auto_focus: bool) -> (set: Self)
        ensures
            set@ == (ButtonView { auto_focus, ..self@ }),
    {
        Button {
            id: self.id,
            disabled: self.disabled,
            children: self.children,
            on_click: self.on_click,
            auto_focus,
        }
    }

    /// The identity of the button.
    pub fn id(&self) -> (id: &ElementId)
        ensures
            id@ == self@.id,
    {
        &self.id
    }

    /// The keys of the button's children, in order.
    pub fn children(&self) -> (keys: Vec<u64>)
        ensures
            keys@ == self@.children,
    {
        self.children.to_vec()
    }

    /// Appends `children` to the button's children, in order.
    pub fn extend(&mut self, children: Vec<u64>)
        requires
            old(self)@.children.len() + children@.len() <= MAX_CHILDREN,
        ensures
            final(self)@ == (ButtonView { children: old(self)@.children + children@, ..old(self)@ }),
    {
        self.children.extend(&children);
    }

    /// Appends `children` if the list has room for them, and says whether it
    /// did. Without room the button stays as it is.
    pub fn try_extend(&mut self, children: Vec<u64>) -> (done: bool)
        ensures
            done == (old(self)@.children.len() + children@.len() <= MAX_CHILDREN),
            done ==> final(self)@ == (ButtonView {
                children: old(self)@.children + children@,
                ..old(self)@
            }),
            !done ==> final(self)@ == old(self)@,
    {
        let held = self.children.len();
        if held <= MAX_CHILDREN && children.len() <= MAX_CHILDREN - held {
            self.extend(children);
            true
        } else {
            false
        }
    }

    /// The state in which the button is rendered.
    pub fn state(&self) -> (state: GateState)
        ensures
            state == self@.state(),
    {
        gate_state(self.disabled, self.on_click.is_some())
    }

    /// How the button's focus handle is created when its identity is
    /// resolved for the first time.
    pub fn creation(&self) -> (plan: Creation)
        ensures
            plan == spec_creation(self@.auto_focus),
    {
        creation(self.auto_focus)
    }

    /// Gives up the button for the callback that its handlers call: the one
    /// that was given, unless the button is disabled.
    pub fn into_handler(self) -> (handler: Option<Rc<F>>)
        ensures
            callback_of(handler) == self@.handler(),
    {
        if self.disabled {
            None
        } else {
            self.on_click
        }
    }

    /// Renders the button in `window`.
    ///
    /// The focus handle is the one that the window keeps for the button's
    /// identity; the first rendering of an identity creates it, as a tab
    /// stop, and gives it focus if the button asks for that. The handlers
    /// are attached, and the handle is tracked, exactly when the button is
    /// enabled and has a callback. The children are handed on as they are.
    pub fn render(self, window: &mut Window) -> (element: ButtonElement<F>)
        requires
            old(window).wf(),
        ensures
            final(window).wf(),
            final(window)@ =~= old(window)@.resolve(self@.id, self@.auto_focus).0,
            element.focus_handle == old(window)@.resolve(self@.id, self@.auto_focus).1,
            element.id@ == self@.id,
            element.callback() == self@.handler(),
            element.spec_state() == self@.state(),
            element.children@ == self@.children,
    {
        let focus_handle = window.resolve(&self.id, self.auto_focus);
        let handler = if self.disabled {
            None
        } else {
            self.on_click
        };
        ButtonElement { id: self.id, focus_handle, handler, children: self.children }
    }
}

/// The callback behind a shared handle to it.
pub open spec fn callback_of<F>(handler: Option<Rc<F>>) -> Option<F> {
    match handler {
        Some(callback) => Some(*callback),
        None => None,
    }
}

/// The window after a host did what `reaction` asks, for a button whose
/// focus target is `target`: first the suppression, then the focus request.
pub open spec fn carried_out(window: WindowView, reaction: Reaction, target: FocusId) -> WindowView {
    let suppressed = if reaction.prevent_default {
        window.prevent_default()
    } else {
        window
    };
    if reaction.request_focus {
        suppressed.focus(target)
    } else {
        suppressed
    }
}

/// One delivery: the answer of a button in `state`, whose focus target is
/// `target`, to `event`, and the window after the answer was carried out.
pub open spec fn deliver(
    state: GateState,
    target: FocusId,
    window: WindowView,
    event: InputEvent,
) -> (WindowView, Reaction) {
    let reaction = spec_react(state, window.focused == Some(target), event);
    (carried_out(window, reaction, target), reaction)
}

/// Many deliveries in a row: the window after the last of `events`, and the
/// activations that the callback was invoked with, in order.
pub open spec fn run(
    state: GateState,
    target: FocusId,
    window: WindowView,
    events: Seq<InputEvent>,
) -> (WindowView, Seq<ClickEvent>)
    decreases events.len(),
{
    if events.len() == 0 {
        (window, Seq::empty())
    } else {
        let before = run(state, target, window, events.drop_last());
        let last = deliver(state, target, before.0, events.last());
        (
            last.0,
            match last.1.activation {
                Some(click) => before.1.push(click),
                None => before.1,
            },
        )
    }
}

/// A rendered button: what a host puts on screen and delivers input to.
pub struct ButtonElement<F> {
    /// The identity of the element.
    pub id: ElementId,
    /// The focus handle that belongs to the identity.
    pub focus_handle: FocusHandle,
    /// The callback of the click and the key handler. Present exactly when
    /// the handlers are attached and the focus handle is tracked.
    pub handler: Option<Rc<F>>,
    /// The keys of the contained children, in order.
    pub children: ChildList,
}

impl<F> ButtonElement<F> {
    /// The callback that the handlers call, if they are attached.
    pub open spec fn callback(&self) -> Option<F> {
        callback_of(self.handler)
    }

    /// Whether the handlers are attached.
    pub open spec fn spec_state(&self) -> GateState {
        if self.handler is Some {
            GateState::Armed
        } else {
            GateState::Unattached
        }
    }

    /// Tells whether the handlers are attached.
    #[verifier::when_used_as_spec(spec_state)]
    pub fn state(&self) -> (state: GateState)
        ensures
            state == self.spec_state(),
    {
        if self.handler.is_some() {
            GateState::Armed
        } else {
            GateState::Unattached
        }
    }
}

/// Whether `callback` may be invoked with `click` in a window that holds
/// `after`.
pub open spec fn callable<F: Fn(&ClickEvent, &Window)>(
    callback: F,
    click: ClickEvent,
    after: WindowView,
) -> bool {
    forall|seen: &Window|
        seen.wf() && seen@ == after ==> #[trigger] call_requires(callback, (&click, seen))
}

impl<F: Fn(&ClickEvent, &Window)> ButtonElement<F> {
    /// Delivers one event to the button.
    ///
    /// The button answers as [`deliver`] says for its state. What the answer
    /// asks of the window is done to `window`, suppression first; an
    /// activation invokes the callback, once, after that, with the event and
    /// the window as it then is. The answer is returned.
    pub fn dispatch(&self, event: &InputEvent, window: &mut Window) -> (reaction: Reaction)
        requires
            old(window).wf(),
            ({
                let (after, reaction) = deliver(
                    self.spec_state(),
                    self.focus_handle.id,
                    old(window)@,
                    *event,
                );
                reaction.activation matches Some(click) ==> self.callback() matches Some(f)
                    ==> callable(f, click, after)
            }),
        ensures
            final(window).wf(),
            reaction == deliver(self.spec_state(), self.focus_handle.id, old(window)@, *event).1,
            final(window)@ =~= deliver(
                self.spec_state(),
                self.focus_handle.id,
                old(window)@,
                *event,
            ).0,
            reaction.activation matches Some(click) ==> self.callback() matches Some(f)
                && call_ensures(f, (&click, &*final(window)), ()),
    {
        let focused = self.focus_handle.is_focused(window);
        let reaction = react(self.state(), focused, event);
        if reaction.prevent_default {
            window.prevent_default();
        }
        if reaction.request_focus {
            self.focus_handle.focus(window);
        }
        match reaction.activation {
            Some(click) => {
                match &self.handler {
                    Some(callback) => {
                        callback(&click, &*window);
                    },
                    None => {},
                }
            },
            None => {},
        }
        reaction
    }
}

} // verus!
