use twm::geometry::{Point, Rectangle, Size};
use twm::keys::KeyAction;
use twm::state::{Effect, Twm};

fn compositor() -> Twm {
    let mut t = Twm::new();
    t.set_output(1, Size { w: 1920, h: 1080 });
    t
}

#[test]
fn fullscreen_on_overlapped_output() {
    let mut t = compositor();
    t.new_toplevel(4, 1, true, true);
    t.handle_commit(4, Size { w: 300, h: 200 });
    let w = t.space.window(4).unwrap();
    t.space.map_element(w, Point { x: 100, y: 100 }, false);
    let effects = t.fullscreen_request(4, None);
    assert_eq!(effects, vec![Effect::SendConfigure(4)]);
    let w = t.space.window(4).unwrap();
    assert!(w.pending.fullscreen);
    assert_eq!(w.pending.size, Some(Size { w: 1920, h: 1080 }));
    assert_eq!(t.space.element_location(4), Some(Point { x: 0, y: 0 }));
}

#[test]
fn fullscreen_without_capability_only_configures() {
    let mut t = compositor();
    t.new_toplevel(4, 1, false, false);
    t.handle_commit(4, Size { w: 300, h: 200 });
    let w = t.space.window(4).unwrap();
    t.space.map_element(w, Point { x: 100, y: 100 }, false);
    let effects = t.fullscreen_request(4, None);
    assert_eq!(effects, vec![Effect::SendConfigure(4)]);
    let w = t.space.window(4).unwrap();
    assert!(!w.pending.fullscreen);
    assert_eq!(w.pending.size, None);
    assert_eq!(t.space.element_location(4), Some(Point { x: 100, y: 100 }));
    assert_eq!(t.maximize_request(4), vec![Effect::SendConfigure(4)]);
    assert!(!t.space.window(4).unwrap().pending.maximized);
}

#[test]
fn fullscreen_off_every_output_only_configures() {
    let mut t = compositor();
    t.new_toplevel(4, 1, true, true);
    t.handle_commit(4, Size { w: 300, h: 200 });
    let w = t.space.window(4).unwrap();
    t.space.map_element(w, Point { x: 5000, y: 5000 }, false);
    assert_eq!(t.fullscreen_request(4, None), vec![Effect::SendConfigure(4)]);
    assert!(!t.space.window(4).unwrap().pending.fullscreen);
    // Naming the output explicitly works wherever the window is.
    assert_eq!(t.fullscreen_request(4, Some(1)), vec![Effect::SendConfigure(4)]);
    assert!(t.space.window(4).unwrap().pending.fullscreen);
    assert_eq!(t.space.element_location(4), Some(Point { x: 0, y: 0 }));
}

#[test]
fn unfullscreen_after_ack() {
    let mut t = compositor();
    t.new_toplevel(4, 1, true, true);
    t.handle_commit(4, Size { w: 300, h: 200 });
    assert!(t.unfullscreen_request(4).is_empty());
    t.fullscreen_request(4, None);
    t.ack_configure(4);
    assert!(t.space.window(4).unwrap().current.fullscreen);
    assert_eq!(t.unfullscreen_request(4), vec![Effect::SendPendingConfigure(4)]);
    let w = t.space.window(4).unwrap();
    assert!(!w.pending.fullscreen);
    assert_eq!(w.pending.size, None);
}

#[test]
fn toggle_fullscreen_key() {
    let mut t = compositor();
    t.new_toplevel(4, 1, true, true);
    t.handle_commit(4, Size { w: 300, h: 200 });
    t.keyboard_focus = Some(4);
    assert_eq!(t.key_action(KeyAction::ToggleFullscreen), vec![Effect::SendConfigure(4)]);
    t.ack_configure(4);
    assert_eq!(t.key_action(KeyAction::ToggleFullscreen), vec![Effect::SendPendingConfigure(4)]);
    assert!(!t.space.window(4).unwrap().pending.fullscreen);
    t.keyboard_focus = Some(99);
    assert!(t.key_action(KeyAction::ToggleFullscreen).is_empty());
}

#[test]
fn maximize_and_unmaximize() {
    let mut t = compositor();
    t.new_toplevel(4, 1, true, true);
    t.handle_commit(4, Size { w: 300, h: 200 });
    let w = t.space.window(4).unwrap();
    t.space.map_element(w, Point { x: 40, y: 40 }, false);
    assert_eq!(t.maximize_request(4), vec![Effect::SendConfigure(4)]);
    let w = t.space.window(4).unwrap();
    assert!(w.pending.maximized);
    assert_eq!(w.pending.size, Some(Size { w: 1920, h: 1080 }));
    assert_eq!(t.space.element_location(4), Some(Point { x: 0, y: 0 }));
    // Not maximized yet as far as the client acknowledged: nothing changes,
    // but the request is still answered.
    assert_eq!(t.unmaximize_request(4), vec![Effect::SendConfigure(4)]);
    assert!(t.space.window(4).unwrap().pending.maximized);
    t.ack_configure(4);
    assert_eq!(t.unmaximize_request(4), vec![Effect::SendConfigure(4)]);
    let w = t.space.window(4).unwrap();
    assert!(!w.pending.maximized);
    assert_eq!(w.pending.size, None);
    assert_eq!(t.unmaximize_request(99), vec![Effect::SendConfigure(99)]);
}

#[test]
fn first_commit_gets_initial_configure() {
    let mut t = compositor();
    t.new_toplevel(4, 1, true, true);
    assert_eq!(t.handle_commit(4, Size { w: 10, h: 10 }), vec![Effect::SendConfigure(4)]);
    assert!(t.handle_commit(4, Size { w: 20, h: 10 }).is_empty());
    assert_eq!(
        t.space.element_geometry(4),
        Some(Rectangle { loc: Point { x: 0, y: 0 }, size: Size { w: 20, h: 10 } })
    );
    assert!(t.handle_commit(77, Size { w: 1, h: 1 }).is_empty());
}

#[test]
fn popup_target_relative_to_parent() {
    let mut t = compositor();
    t.new_toplevel(4, 1, true, true);
    t.handle_commit(4, Size { w: 300, h: 200 });
    let w = t.space.window(4).unwrap();
    t.space.map_element(w, Point { x: 100, y: 50 }, false);
    assert_eq!(
        t.popup_target(4, Point { x: 10, y: 20 }),
        Some(Rectangle { loc: Point { x: -110, y: -70 }, size: Size { w: 1920, h: 1080 } })
    );
    assert_eq!(t.popup_target(5, Point { x: 0, y: 0 }), None);
    assert_eq!(Twm::new().popup_target(4, Point { x: 0, y: 0 }), None);
}

#[test]
fn surface_under_reports_location() {
    let mut t = compositor();
    t.new_toplevel(4, 1, true, true);
    t.handle_commit(4, Size { w: 300, h: 200 });
    let p = twm::geometry::FixedPoint { x: 256 * 10, y: 256 * 10 };
    assert_eq!(t.surface_under(p), Some((4, Point { x: 0, y: 0 })));
}
