use std::cell::RefCell;
use std::rc::Rc;

use ui_button::{
    button, ClickEvent, FocusId, GateState, InputEvent, KeyUpEvent, Keystroke, Modifiers,
    MouseButton, MouseDownEvent, MouseUpEvent, Pixels, Point, Window,
};

fn point(x: f32, y: f32) -> Point {
    Point { x: Pixels { bits: x.to_bits() }, y: Pixels { bits: y.to_bits() } }
}

fn press_at(position: Point) -> MouseDownEvent {
    MouseDownEvent {
        button: MouseButton::Left,
        position,
        modifiers: Modifiers::none(),
        click_count: 1,
        first_mouse: false,
    }
}

fn release_at(position: Point) -> MouseUpEvent {
    MouseUpEvent {
        button: MouseButton::Left,
        position,
        modifiers: Modifiers::none(),
        click_count: 1,
    }
}

fn key_up(key: &str, modifiers: Modifiers) -> InputEvent {
    InputEvent::KeyUp(KeyUpEvent { keystroke: Keystroke { modifiers, key: key.to_string() } })
}

#[test]
fn mouse_down_then_click_activates_once_and_focuses() {
    let log: Rc<RefCell<Vec<ClickEvent>>> = Rc::new(RefCell::new(Vec::new()));
    let sink = log.clone();
    let mut window = Window::new();
    let b1 = button("b1")
        .disabled(false)
        .auto_focus(false)
        .on_click(move |event: &ClickEvent, _: &Window| sink.borrow_mut().push(*event))
        .render(&mut window);
    assert_eq!(b1.state(), GateState::Armed);
    assert_eq!(window.focused(), None);

    let down = press_at(point(12.5, 40.0));
    let up = release_at(point(13.0, 41.5));
    window.begin_event();
    let pressed = b1.dispatch(&InputEvent::MouseDown(down), &mut window);
    assert!(pressed.prevent_default);
    assert!(pressed.request_focus);
    assert_eq!(pressed.activation, None);
    assert!(log.borrow().is_empty());
    assert!(b1.focus_handle.is_focused(&window));
    assert!(window.default_prevented());

    window.begin_event();
    let click = ClickEvent { down, up };
    let clicked = b1.dispatch(&InputEvent::Click(click), &mut window);
    assert_eq!(clicked.activation, Some(click));
    assert!(!window.default_prevented());

    let seen = log.borrow();
    assert_eq!(seen.len(), 1);
    assert_eq!(seen[0].down.position, point(12.5, 40.0));
    assert_eq!(seen[0].up.position, point(13.0, 41.5));
    assert_eq!(f32::from_bits(seen[0].down.position.x.bits), 12.5);
    assert_eq!(f32::from_bits(seen[0].up.position.y.bits), 41.5);
    assert_eq!(seen[0], click);
    assert_eq!(window.focused(), Some(b1.focus_handle.id));
    assert_eq!(window.focus_requests().as_slice(), &[b1.focus_handle.id]);
}

#[test]
fn disabled_button_ignores_mouse_down_and_click() {
    let log: Rc<RefCell<Vec<ClickEvent>>> = Rc::new(RefCell::new(Vec::new()));
    let sink = log.clone();
    let mut window = Window::new();
    let b2 = button("b2")
        .disabled(true)
        .on_click(move |event: &ClickEvent, _: &Window| sink.borrow_mut().push(*event))
        .render(&mut window);
    assert_eq!(b2.state(), GateState::Unattached);
    assert!(b2.handler.is_none());

    let down = press_at(point(1.0, 2.0));
    let up = release_at(point(1.0, 2.0));
    window.begin_event();
    let pressed = b2.dispatch(&InputEvent::MouseDown(down), &mut window);
    assert_eq!(pressed, ui_button::Reaction::none());
    window.begin_event();
    let clicked = b2.dispatch(&InputEvent::Click(ClickEvent { down, up }), &mut window);
    assert_eq!(clicked, ui_button::Reaction::none());

    assert!(log.borrow().is_empty());
    assert_eq!(window.focused(), None);
    assert!(window.focus_requests().is_empty());
    assert!(!window.default_prevented());
}

#[test]
fn enter_key_up_on_focused_button_activates_with_key_modifiers() {
    let log: Rc<RefCell<Vec<ClickEvent>>> = Rc::new(RefCell::new(Vec::new()));
    let sink = log.clone();
    let mut window = Window::new();
    let b3 = button("b3")
        .auto_focus(true)
        .on_click(move |event: &ClickEvent, _: &Window| sink.borrow_mut().push(*event))
        .render(&mut window);
    assert!(b3.focus_handle.is_focused(&window));

    let held = Modifiers { control: true, alt: false, shift: true, platform: false, function: false };
    window.begin_event();
    let reaction = b3.dispatch(&key_up("enter", held), &mut window);
    assert!(!reaction.prevent_default);
    assert!(!reaction.request_focus);

    let seen = log.borrow();
    assert_eq!(seen.len(), 1);
    let expected = ClickEvent {
        down: MouseDownEvent {
            button: MouseButton::Left,
            position: Point { x: Pixels { bits: 0 }, y: Pixels { bits: 0 } },
            modifiers: Modifiers {
                control: false,
                alt: false,
                shift: false,
                platform: false,
                function: false,
            },
            click_count: 0,
            first_mouse: false,
        },
        up: MouseUpEvent {
            button: MouseButton::Left,
            position: Point { x: Pixels { bits: 0 }, y: Pixels { bits: 0 } },
            modifiers: held,
            click_count: 0,
        },
    };
    assert_eq!(seen[0], expected);
    assert_eq!(reaction.activation, Some(expected));
    assert_eq!(f32::from_bits(seen[0].down.position.x.bits), 0.0);
    assert_eq!(f32::from_bits(seen[0].up.position.y.bits), 0.0);
    assert_eq!(window.focused(), Some(FocusId { index: 0 }));
    assert_eq!(window.focus_requests().len(), 1);
}

#[test]
fn other_key_up_does_not_activate() {
    let log: Rc<RefCell<Vec<ClickEvent>>> = Rc::new(RefCell::new(Vec::new()));
    let sink = log.clone();
    let mut window = Window::new();
    let b4 = button("b4")
        .on_click(move |event: &ClickEvent, _: &Window| sink.borrow_mut().push(*event))
        .render(&mut window);
    assert_eq!(b4.state(), GateState::Armed);

    window.begin_event();
    let reaction = b4.dispatch(&key_up("a", Modifiers::none()), &mut window);
    assert_eq!(reaction, ui_button::Reaction::none());
    assert!(log.borrow().is_empty());
    assert_eq!(window.focused(), None);
}
