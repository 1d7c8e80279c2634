use ui_button::gate::{
    gate_state, is_activation_key, keyboard_click, on_click, on_key_up, on_mouse_down, react,
};
use ui_button::{
    ClickEvent, GateState, InputEvent, KeyDownEvent, KeyUpEvent, Keystroke, Modifiers,
    MouseButton, MouseDownEvent, MouseUpEvent, NavigationDirection, Pixels, Point, Reaction,
};

fn origin() -> Point {
    Point { x: Pixels { bits: 0 }, y: Pixels { bits: 0 } }
}

fn no_modifiers() -> Modifiers {
    Modifiers { control: false, alt: false, shift: false, platform: false, function: false }
}

fn press(button: MouseButton) -> MouseDownEvent {
    MouseDownEvent {
        button,
        position: Point { x: Pixels { bits: 7 }, y: Pixels { bits: 9 } },
        modifiers: no_modifiers(),
        click_count: 1,
        first_mouse: true,
    }
}

fn release(button: MouseButton) -> MouseUpEvent {
    MouseUpEvent {
        button,
        position: Point { x: Pixels { bits: 8 }, y: Pixels { bits: 9 } },
        modifiers: no_modifiers(),
        click_count: 1,
    }
}

fn key(name: &str, modifiers: Modifiers) -> Keystroke {
    Keystroke { modifiers, key: name.to_string() }
}

#[test]
fn gate_is_armed_only_when_enabled_with_a_callback() {
    assert_eq!(gate_state(false, true), GateState::Armed);
    assert_eq!(gate_state(false, false), GateState::Unattached);
    assert_eq!(gate_state(true, true), GateState::Unattached);
    assert_eq!(gate_state(true, false), GateState::Unattached);
}

#[test]
fn only_space_and_enter_are_activation_keys() {
    assert!(is_activation_key("space"));
    assert!(is_activation_key("enter"));
    assert!(!is_activation_key("a"));
    assert!(!is_activation_key(""));
    assert!(!is_activation_key(" "));
    assert!(!is_activation_key("Enter"));
    assert!(!is_activation_key("SPACE"));
    assert!(!is_activation_key("enter "));
    assert!(!is_activation_key("escape"));
    assert!(!is_activation_key("tab"));
    assert!(!is_activation_key("spaceenter"));
}

#[test]
fn modifiers_none_holds_no_key() {
    assert_eq!(Modifiers::none(), no_modifiers());
}

#[test]
fn default_point_is_the_origin() {
    assert_eq!(Point::default(), origin());
    assert_eq!(f32::from_bits(Point::default().x.bits), 0.0);
    assert_eq!(f32::from_bits(Point::default().y.bits), 0.0);
}

#[test]
fn keyboard_click_is_made_up_from_the_modifiers() {
    let held = Modifiers { control: false, alt: true, shift: false, platform: true, function: false };
    let click = keyboard_click(held);
    assert_eq!(
        click,
        ClickEvent {
            down: MouseDownEvent {
                button: MouseButton::Left,
                position: origin(),
                modifiers: no_modifiers(),
                click_count: 0,
                first_mouse: false,
            },
            up: MouseUpEvent {
                button: MouseButton::Left,
                position: origin(),
                modifiers: held,
                click_count: 0,
            },
        }
    );
}

#[test]
fn left_press_suppresses_default_and_asks_for_focus_when_unfocused() {
    assert_eq!(
        on_mouse_down(press(MouseButton::Left), false),
        Reaction { prevent_default: true, request_focus: true, activation: None }
    );
}

#[test]
fn left_press_on_focused_button_asks_for_no_focus() {
    assert_eq!(
        on_mouse_down(press(MouseButton::Left), true),
        Reaction { prevent_default: true, request_focus: false, activation: None }
    );
}

#[test]
fn presses_of_other_buttons_are_ignored() {
    let others = [
        MouseButton::Right,
        MouseButton::Middle,
        MouseButton::Navigate(NavigationDirection::Back),
        MouseButton::Navigate(NavigationDirection::Forward),
    ];
    for button in others {
        assert_eq!(on_mouse_down(press(button), false), Reaction::none());
        assert_eq!(on_mouse_down(press(button), true), Reaction::none());
    }
}

#[test]
fn click_activates_with_its_own_data() {
    let click = ClickEvent { down: press(MouseButton::Left), up: release(MouseButton::Left) };
    assert_eq!(
        on_click(click),
        Reaction { prevent_default: false, request_focus: false, activation: Some(click) }
    );
}

#[test]
fn key_release_activates_for_space_and_enter_only() {
    let held = Modifiers { control: true, alt: false, shift: false, platform: false, function: true };
    for name in ["space", "enter"] {
        let reaction = on_key_up(&KeyUpEvent { keystroke: key(name, held) });
        assert_eq!(
            reaction,
            Reaction {
                prevent_default: false,
                request_focus: false,
                activation: Some(keyboard_click(held)),
            }
        );
    }
    for name in ["a", "escape", "tab", "", "Space", "return"] {
        let reaction = on_key_up(&KeyUpEvent { keystroke: key(name, held) });
        assert_eq!(reaction, Reaction::none());
    }
}

#[test]
fn unattached_button_reacts_to_nothing() {
    let click = ClickEvent { down: press(MouseButton::Left), up: release(MouseButton::Left) };
    let events = [
        InputEvent::MouseDown(press(MouseButton::Left)),
        InputEvent::MouseUp(release(MouseButton::Left)),
        InputEvent::Click(click),
        InputEvent::KeyDown(KeyDownEvent { keystroke: key("enter", no_modifiers()), is_held: false }),
        InputEvent::KeyUp(KeyUpEvent { keystroke: key("enter", no_modifiers()) }),
        InputEvent::KeyUp(KeyUpEvent { keystroke: key("space", no_modifiers()) }),
    ];
    for event in events.iter() {
        assert_eq!(react(GateState::Unattached, false, event), Reaction::none());
        assert_eq!(react(GateState::Unattached, true, event), Reaction::none());
    }
}

#[test]
fn armed_button_reacts_to_press_click_and_key_release_only() {
    let click = ClickEvent { down: press(MouseButton::Left), up: release(MouseButton::Left) };
    let shift = Modifiers { control: false, alt: false, shift: true, platform: false, function: false };
    assert_eq!(
        react(GateState::Armed, false, &InputEvent::MouseDown(press(MouseButton::Left))),
        Reaction { prevent_default: true, request_focus: true, activation: None }
    );
    assert_eq!(
        react(GateState::Armed, true, &InputEvent::MouseDown(press(MouseButton::Left))),
        Reaction { prevent_default: true, request_focus: false, activation: None }
    );
    assert_eq!(
        react(GateState::Armed, false, &InputEvent::Click(click)),
        Reaction { prevent_default: false, request_focus: false, activation: Some(click) }
    );
    assert_eq!(
        react(
            GateState::Armed,
            false,
            &InputEvent::KeyUp(KeyUpEvent { keystroke: key("space", shift) })
        ),
        Reaction {
            prevent_default: false,
            request_focus: false,
            activation: Some(keyboard_click(shift)),
        }
    );
    assert_eq!(
        react(GateState::Armed, true, &InputEvent::MouseUp(release(MouseButton::Left))),
        Reaction::none()
    );
    assert_eq!(
        react(
            GateState::Armed,
            true,
            &InputEvent::KeyDown(KeyDownEvent { keystroke: key("enter", shift), is_held: true })
        ),
        Reaction::none()
    );
}

#[test]
fn cloned_events_equal_the_events_they_were_made_from() {
    let event = InputEvent::KeyUp(KeyUpEvent { keystroke: key("enter", no_modifiers()) });
    assert_eq!(event.clone(), event);
    let down = InputEvent::KeyDown(KeyDownEvent { keystroke: key("x", no_modifiers()), is_held: true });
    assert_eq!(down.clone(), down);
    let press = InputEvent::MouseDown(press(MouseButton::Middle));
    assert_eq!(press.clone(), press);
}
