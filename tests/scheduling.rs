use twm::redraw::RedrawState;
use twm::state::{Effect, Twm};
use twm::geometry::{Point, Size};
use twm::state::RenderElement;

#[test]
fn queue_redraw_coalesces() {
    let mut r = RedrawState::new();
    let scheduled = (0..10).filter(|_| r.queue_redraw()).count();
    assert_eq!(scheduled, 1);
    assert!(r.redraw_queued);
    r.start_redraw(false);
    assert!(!r.redraw_queued && !r.waiting_for_vblank);
    assert!(r.queue_redraw());
}

#[test]
fn queue_redraw_waits_for_vblank() {
    let mut r = RedrawState::new();
    assert!(r.queue_redraw());
    r.start_redraw(true);
    assert!(!r.queue_redraw());
    assert_eq!(r, RedrawState { redraw_queued: false, waiting_for_vblank: true });
    r.vblank();
    assert!(r.queue_redraw());
}

#[test]
fn twm_redraw_frame() {
    let mut t = Twm::new();
    t.set_output(1, Size { w: 800, h: 600 });
    t.new_toplevel(5, 1, true, true);
    t.handle_commit(5, Size { w: 100, h: 100 });
    t.new_toplevel(6, 1, true, true);
    t.handle_commit(6, Size { w: 100, h: 100 });
    assert!(t.queue_redraw());
    assert!(!t.queue_redraw());
    let frame = t.redraw(false);
    assert_eq!(
        frame.elements,
        vec![
            RenderElement::Cursor(Point { x: 0, y: 0 }),
            RenderElement::Window { id: 6, loc: Point { x: 0, y: 0 } },
            RenderElement::Window { id: 5, loc: Point { x: 0, y: 0 } },
        ]
    );
    assert_eq!(frame.frame_callbacks, vec![5, 6]);
    assert!(t.queue_redraw());
}

#[test]
fn destroyed_window_gone_after_redraw() {
    let mut t = Twm::new();
    t.set_output(1, Size { w: 800, h: 600 });
    t.new_toplevel(5, 1, true, true);
    let effects = t.toplevel_destroyed(5);
    assert_eq!(effects, vec![Effect::ScheduleRedraw]);
    assert_eq!(t.popup_destroyed(), vec![]);
    let frame = t.redraw(true);
    assert_eq!(frame.frame_callbacks, vec![5]);
    assert!(t.space.window(5).is_none());
    assert!(t.queue_redraw() == false);
    t.vblank();
    assert!(t.queue_redraw());
}

#[test]
fn redraw_without_output_is_empty() {
    let mut t = Twm::new();
    t.new_toplevel(5, 1, true, true);
    assert!(t.queue_redraw());
    let frame = t.redraw(false);
    assert!(frame.elements.is_empty());
    assert!(frame.frame_callbacks.is_empty());
}
