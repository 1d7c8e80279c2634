//! A clickable, focusable button, without a toolkit around it.
//!
//! The crate holds what a button decides: whether its handlers are attached,
//! which input activates it, and when it takes keyboard focus. A host shows
//! the button and feeds it input. [`focus::Window`] is such a host, cut down
//! to what a button touches; any other host can call the decisions in
//! [`gate`] and [`focus::creation`] and carry them out itself.

pub mod button;
pub mod children;
pub mod event;
pub mod focus;
pub mod gate;
pub mod identity;
pub mod laws;

pub use button::{button, Button, ButtonElement};
pub use children::{ChildList, MAX_CHILDREN};
pub use event::{
    ClickEvent, InputEvent, KeyDownEvent, KeyUpEvent, Keystroke, Modifiers, MouseButton,
    MouseDownEvent, MouseUpEvent, NavigationDirection, Pixels, Point,
};
pub use focus::{Creation, FocusHandle, FocusId, Window};
pub use gate::{GateState, Reaction};
pub use identity::ElementId;
