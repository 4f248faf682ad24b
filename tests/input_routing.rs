use twm::axis::{axis_frame, AxisEvent, AxisSource};
use twm::geometry::{FixedPoint, Point, Rectangle, Size, FIXED_ONE};
use twm::grab::{PointerGrab, ResizeEdges};
use twm::keys::{filter_key, tty_bindings, windowed_bindings, KeyAction, KEY_C, KEY_F, KEY_Q, KEY_SWITCH_VT_1, KEY_T};
use twm::state::{Effect, InputEvent, Twm};

const BTN_LEFT: u32 = 0x110;

fn compositor() -> Twm {
    let mut t = Twm::new();
    t.set_output(1, Size { w: 1000, h: 800 });
    t
}

fn add_window(t: &mut Twm, id: u32, client: u32, loc: Point, size: Size) {
    t.new_toplevel(id, client, true, true);
    t.handle_commit(id, size);
    let w = t.space.window(id).unwrap();
    t.space.map_element(w, loc, false);
}

fn motion(t: &mut Twm, dx: i64, dy: i64) -> Vec<Effect> {
    t.pointer_motion(dx, dy, dx, dy, 0, 0)
}

fn move_to(t: &mut Twm, x: i64, y: i64) {
    let p = t.pointer_location;
    motion(t, x * FIXED_ONE - p.x, y * FIXED_ONE - p.y);
}

#[test]
fn press_raises_focuses_and_close_targets_it() {
    let mut t = compositor();
    add_window(&mut t, 1, 10, Point { x: 50, y: 50 }, Size { w: 200, h: 150 });
    add_window(&mut t, 2, 20, Point { x: 600, y: 600 }, Size { w: 100, h: 100 });
    t.space.raise_element(2, false);
    move_to(&mut t, 100, 100);
    let effects = t.pointer_button(BTN_LEFT, true, 7, 0);
    assert_eq!(
        effects,
        vec![
            Effect::SetKeyboardFocus(Some(1)),
            Effect::SendPendingConfigure(2),
            Effect::SendPendingConfigure(1),
            Effect::PointerButton { button: BTN_LEFT, pressed: true, serial: 7, time: 0 },
            Effect::PointerFrame,
        ]
    );
    assert_eq!(t.keyboard_focus, Some(1));
    assert_eq!(t.space.window_ids(), vec![2, 1]);
    assert!(t.space.window(1).unwrap().pending.activated);
    let action = filter_key(&windowed_bindings(), KEY_C, true).unwrap();
    assert_eq!(action, KeyAction::CloseWindow);
    assert_eq!(t.key_action(action), vec![Effect::SendClose(1)]);
}

#[test]
fn press_on_nothing_clears_focus() {
    let mut t = compositor();
    add_window(&mut t, 1, 10, Point { x: 50, y: 50 }, Size { w: 200, h: 150 });
    move_to(&mut t, 100, 100);
    t.pointer_button(BTN_LEFT, true, 1, 0);
    t.pointer_button(BTN_LEFT, false, 2, 0);
    move_to(&mut t, 900, 700);
    let effects = t.pointer_button(BTN_LEFT, true, 3, 0);
    assert_eq!(
        effects,
        vec![
            Effect::SendPendingConfigure(1),
            Effect::SetKeyboardFocus(None),
            Effect::PointerButton { button: BTN_LEFT, pressed: true, serial: 3, time: 0 },
            Effect::PointerFrame,
        ]
    );
    assert_eq!(t.keyboard_focus, None);
    assert!(!t.space.window(1).unwrap().pending.activated);
    assert_eq!(t.key_action(KeyAction::CloseWindow), vec![]);
}

#[test]
fn motion_is_clamped_and_hit_tested() {
    let mut t = compositor();
    add_window(&mut t, 1, 10, Point { x: 0, y: 0 }, Size { w: 100, h: 100 });
    let effects = motion(&mut t, -5 * FIXED_ONE, 20 * FIXED_ONE);
    assert_eq!(t.pointer_location, FixedPoint { x: 0, y: 20 * FIXED_ONE });
    assert_eq!(
        effects,
        vec![
            Effect::PointerMotion { focus: Some(1), location: FixedPoint { x: 0, y: 20 * FIXED_ONE }, time: 0 },
            Effect::PointerRelativeMotion {
                focus: Some(1),
                dx: -5 * FIXED_ONE,
                dy: 20 * FIXED_ONE,
                dx_unaccel: -5 * FIXED_ONE,
                dy_unaccel: 20 * FIXED_ONE,
                utime: 0,
            },
            Effect::ScheduleRedraw,
        ]
    );
    let effects = motion(&mut t, 5000 * FIXED_ONE, 5000 * FIXED_ONE);
    assert_eq!(t.pointer_location, FixedPoint { x: 1000 * FIXED_ONE, y: 800 * FIXED_ONE });
    assert_eq!(effects[0], Effect::PointerMotion { focus: None, location: t.pointer_location, time: 0 });
    assert_eq!(effects.len(), 2);
}

#[test]
fn absolute_motion_goes_through_dispatch() {
    let mut t = compositor();
    add_window(&mut t, 1, 10, Point { x: 10, y: 10 }, Size { w: 100, h: 100 });
    let effects = t.process_input_event(InputEvent::PointerMotionAbsolute { x: 20 * FIXED_ONE, y: 30 * FIXED_ONE, time: 9 });
    assert_eq!(
        effects,
        vec![
            Effect::PointerMotion { focus: Some(1), location: FixedPoint { x: 20 * FIXED_ONE, y: 30 * FIXED_ONE }, time: 9 },
            Effect::PointerFrame,
            Effect::ScheduleRedraw,
        ]
    );
    let mut none = Twm::new();
    assert!(none.pointer_motion_absolute(5, 5, 0).is_empty());
}

#[test]
fn move_grab_needs_matching_serial_and_client() {
    let mut t = compositor();
    add_window(&mut t, 1, 10, Point { x: 50, y: 50 }, Size { w: 200, h: 150 });
    add_window(&mut t, 2, 20, Point { x: 500, y: 500 }, Size { w: 100, h: 100 });
    move_to(&mut t, 100, 100);
    t.pointer_button(BTN_LEFT, true, 42, 0);
    let before = t.space.window_ids();
    assert!(t.move_request(1, 41).is_empty());
    assert!(t.move_request(2, 42).is_empty());
    assert!(t.resize_request(2, 42, ResizeEdges::from_bits(8)).is_empty());
    assert_eq!(t.space.window_ids(), before);
    assert_eq!(t.space.element_location(1), Some(Point { x: 50, y: 50 }));
    assert!(matches!(t.grab, Some(PointerGrab::Implicit(_))));
    assert_eq!(t.move_request(1, 42), vec![Effect::ClearPointerFocus]);
    assert!(matches!(t.grab, Some(PointerGrab::Move(_))));
    // A second request while the move grab is in force is ignored.
    assert!(t.move_request(1, 42).is_empty());
}

#[test]
fn move_grab_follows_pointer_then_release_ends_it() {
    let mut t = compositor();
    add_window(&mut t, 1, 10, Point { x: 50, y: 50 }, Size { w: 200, h: 150 });
    move_to(&mut t, 100, 100);
    t.pointer_button(BTN_LEFT, true, 5, 0);
    assert_eq!(t.move_request(1, 5), vec![Effect::ClearPointerFocus]);
    let effects = motion(&mut t, 30 * FIXED_ONE, -20 * FIXED_ONE);
    assert_eq!(effects[0], Effect::PointerMotion { focus: None, location: FixedPoint { x: 130 * FIXED_ONE, y: 80 * FIXED_ONE }, time: 0 });
    assert_eq!(t.space.element_location(1), Some(Point { x: 80, y: 30 }));
    motion(&mut t, FIXED_ONE / 2, 3 * FIXED_ONE);
    motion(&mut t, -(FIXED_ONE / 4), -(FIXED_ONE / 4));
    // Pointer travelled (30.25, -17.25) from the press: the window is there, rounded.
    assert_eq!(t.space.element_location(1), Some(Point { x: 80, y: 33 }));
    t.pointer_button(BTN_LEFT, false, 6, 0);
    assert!(t.grab.is_none());
    let effects = motion(&mut t, FIXED_ONE, FIXED_ONE);
    assert_eq!(t.space.element_location(1), Some(Point { x: 80, y: 33 }));
    assert_eq!(effects[0], Effect::PointerMotion { focus: Some(1), location: t.pointer_location, time: 0 });
}

#[test]
fn grab_stays_while_other_button_held() {
    let mut t = compositor();
    add_window(&mut t, 1, 10, Point { x: 0, y: 0 }, Size { w: 200, h: 200 });
    move_to(&mut t, 10, 10);
    t.pointer_button(BTN_LEFT, true, 1, 0);
    t.pointer_button(BTN_LEFT + 1, true, 2, 0);
    assert_eq!(t.move_request(1, 1), vec![Effect::ClearPointerFocus]);
    t.pointer_button(BTN_LEFT, false, 3, 0);
    assert!(matches!(t.grab, Some(PointerGrab::Move(_))));
    t.pointer_button(BTN_LEFT + 1, false, 4, 0);
    assert!(t.grab.is_none());
    assert!(t.pressed_buttons.is_empty());
}

#[test]
fn resize_grab_drags_right_and_bottom() {
    let mut t = compositor();
    add_window(&mut t, 1, 10, Point { x: 50, y: 50 }, Size { w: 200, h: 150 });
    move_to(&mut t, 240, 190);
    t.pointer_button(BTN_LEFT, true, 9, 0);
    let effects = t.resize_request(1, 9, ResizeEdges::from_bits(2 | 8));
    assert_eq!(effects, vec![Effect::SendPendingConfigure(1), Effect::ClearPointerFocus]);
    assert!(t.space.window(1).unwrap().pending.resizing);
    let effects = motion(&mut t, 10 * FIXED_ONE, -500 * FIXED_ONE);
    assert_eq!(effects[1], Effect::SendPendingConfigure(1));
    assert_eq!(t.space.window(1).unwrap().pending.size, Some(Size { w: 210, h: 1 }));
    assert_eq!(t.space.element_location(1), Some(Point { x: 50, y: 50 }));
    let effects = t.pointer_button(BTN_LEFT, false, 10, 0);
    assert_eq!(
        effects,
        vec![
            Effect::PointerButton { button: BTN_LEFT, pressed: false, serial: 10, time: 0 },
            Effect::SendPendingConfigure(1),
            Effect::PointerFrame,
        ]
    );
    assert!(!t.space.window(1).unwrap().pending.resizing);
}

#[test]
fn resize_grab_left_edge_keeps_right_edge() {
    let mut t = compositor();
    add_window(&mut t, 1, 10, Point { x: 50, y: 50 }, Size { w: 200, h: 150 });
    move_to(&mut t, 55, 100);
    t.pointer_button(BTN_LEFT, true, 9, 0);
    t.resize_request(1, 9, ResizeEdges::from_bits(4));
    motion(&mut t, -20 * FIXED_ONE, 0);
    assert_eq!(t.space.window(1).unwrap().pending.size, Some(Size { w: 220, h: 150 }));
    assert_eq!(t.space.element_location(1), Some(Point { x: 30, y: 50 }));
}

#[test]
fn unset_grab_clears_it() {
    let mut t = compositor();
    add_window(&mut t, 1, 10, Point { x: 0, y: 0 }, Size { w: 200, h: 200 });
    move_to(&mut t, 10, 10);
    t.pointer_button(BTN_LEFT, true, 1, 0);
    assert_eq!(t.move_request(1, 1), vec![Effect::ClearPointerFocus]);
    t.unset_grab();
    assert!(t.grab.is_none());
}

#[test]
fn axis_finger_discrete_scaled_without_stop() {
    let e = AxisEvent {
        source: AxisSource::Finger,
        time: 3,
        horizontal: Some(0),
        vertical: None,
        horizontal_v120: Some(120),
        vertical_v120: None,
    };
    let f = axis_frame(&e);
    assert_eq!(f.horizontal, Some(15 * FIXED_ONE));
    assert_eq!(f.horizontal_v120, Some(120));
    assert!(!f.stop_horizontal);
    assert!(!f.stop_vertical);
    assert_eq!(f.vertical, None);
}

#[test]
fn axis_stop_only_for_finger() {
    let wheel = AxisEvent {
        source: AxisSource::Wheel,
        time: 1,
        horizontal: Some(0),
        vertical: Some(0),
        horizontal_v120: None,
        vertical_v120: None,
    };
    let f = axis_frame(&wheel);
    assert!(!f.stop_horizontal && !f.stop_vertical);
    assert_eq!(f.horizontal, None);
    let finger = AxisEvent { source: AxisSource::Finger, ..wheel };
    let f = axis_frame(&finger);
    assert!(f.stop_horizontal && f.stop_vertical);
    let moving = AxisEvent { source: AxisSource::Finger, vertical: Some(-300), ..wheel };
    let f = axis_frame(&moving);
    assert_eq!(f.vertical, Some(-300));
    assert!(!f.stop_vertical && f.stop_horizontal);
    let mut t = compositor();
    assert_eq!(
        t.process_input_event(InputEvent::PointerAxis(moving)),
        vec![Effect::PointerAxis(f), Effect::PointerFrame]
    );
}

#[test]
fn key_filter_intercepts_presses_only() {
    let b = windowed_bindings();
    assert_eq!(filter_key(&b, KEY_Q, true), Some(KeyAction::Quit));
    assert_eq!(filter_key(&b, KEY_F, true), Some(KeyAction::ToggleFullscreen));
    assert_eq!(filter_key(&b, KEY_T, true), Some(KeyAction::Terminal));
    assert_eq!(filter_key(&b, KEY_Q, false), None);
    assert_eq!(filter_key(&b, 0x61, true), None);
    let tty = tty_bindings();
    assert_eq!(filter_key(&tty, KEY_SWITCH_VT_1 + 2, true), Some(KeyAction::SwitchVt(3)));
    assert_eq!(filter_key(&tty, KEY_C, true), None);
    let mut t = compositor();
    assert_eq!(t.key_action(KeyAction::Quit), vec![Effect::Quit]);
    assert_eq!(t.key_action(KeyAction::Terminal), vec![Effect::SpawnTerminal]);
    assert_eq!(t.key_action(KeyAction::SwitchVt(2)), vec![Effect::SwitchVt(2)]);
}

#[test]
fn motion_forwards_device_values() {
    let mut t = compositor();
    let effects = t.process_input_event(InputEvent::PointerMotion {
        dx: 4 * FIXED_ONE,
        dy: 2 * FIXED_ONE,
        dx_unaccel: 3 * FIXED_ONE,
        dy_unaccel: FIXED_ONE,
        time: 17,
        utime: 17_250,
    });
    assert_eq!(
        effects,
        vec![
            Effect::PointerMotion { focus: None, location: FixedPoint { x: 4 * FIXED_ONE, y: 2 * FIXED_ONE }, time: 17 },
            Effect::PointerRelativeMotion {
                focus: None,
                dx: 4 * FIXED_ONE,
                dy: 2 * FIXED_ONE,
                dx_unaccel: 3 * FIXED_ONE,
                dy_unaccel: FIXED_ONE,
                utime: 17_250,
            },
            Effect::ScheduleRedraw,
        ]
    );
    let effects = t.process_input_event(InputEvent::PointerButton { button: BTN_LEFT, pressed: true, serial: 4, time: 18 });
    assert_eq!(effects[effects.len() - 2], Effect::PointerButton { button: BTN_LEFT, pressed: true, serial: 4, time: 18 });
}

#[test]
fn move_grab_rounds_start_plus_travel() {
    let mut t = compositor();
    add_window(&mut t, 1, 10, Point { x: 1, y: 1 }, Size { w: 100, h: 100 });
    move_to(&mut t, 10, 10);
    t.pointer_button(BTN_LEFT, true, 3, 0);
    assert_eq!(t.move_request(1, 3), vec![Effect::ClearPointerFocus]);
    // 1 - 0.5 rounds to 1; 1 - 0.75 rounds to 0.
    motion(&mut t, -(FIXED_ONE / 2), -(3 * FIXED_ONE / 4));
    assert_eq!(t.space.element_location(1), Some(Point { x: 1, y: 0 }));
    // -1 - 0.5 rounds away from zero to -2.
    motion(&mut t, -2 * FIXED_ONE, 0);
    assert_eq!(t.space.element_location(1), Some(Point { x: -2, y: 0 }));
}
