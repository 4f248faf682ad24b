use twm::geometry::{FixedPoint, Point, Rectangle, Size, FIXED_ONE};
use twm::space::{Space, Window};

fn px(x: i64, y: i64) -> FixedPoint {
    FixedPoint { x: x * FIXED_ONE, y: y * FIXED_ONE }
}

fn sized(id: u32, client: u32, w: i32, h: i32) -> Window {
    let mut win = Window::new(id, client, true, true);
    win.size = Size { w, h };
    win
}

#[test]
fn element_under_prefers_topmost() {
    let mut s = Space::new();
    s.map_element(sized(1, 1, 100, 100), Point { x: 0, y: 0 }, false);
    s.map_element(sized(2, 2, 100, 100), Point { x: 50, y: 50 }, false);
    assert_eq!(s.element_under(px(75, 75)), Some((2, Point { x: 50, y: 50 })));
    assert_eq!(s.element_under(px(10, 10)), Some((1, Point { x: 0, y: 0 })));
    s.raise_element(1, true);
    assert_eq!(s.element_under(px(75, 75)), Some((1, Point { x: 0, y: 0 })));
    assert_eq!(s.element_under(px(140, 140)), Some((2, Point { x: 50, y: 50 })));
    assert_eq!(s.element_under(px(300, 300)), None);
}

#[test]
fn element_under_edges_are_half_open() {
    let mut s = Space::new();
    s.map_element(sized(7, 1, 10, 10), Point { x: 5, y: 5 }, false);
    assert_eq!(s.element_under(px(5, 5)), Some((7, Point { x: 5, y: 5 })));
    assert_eq!(s.element_under(FixedPoint { x: 15 * FIXED_ONE - 1, y: 5 * FIXED_ONE }), Some((7, Point { x: 5, y: 5 })));
    assert_eq!(s.element_under(px(15, 5)), None);
    assert_eq!(s.element_under(px(5, 15)), None);
}

#[test]
fn map_keeps_slot_unless_activated() {
    let mut s = Space::new();
    s.map_element(sized(1, 1, 100, 100), Point { x: 0, y: 0 }, false);
    s.map_element(sized(2, 1, 100, 100), Point { x: 0, y: 0 }, false);
    // Moving window 1 without activation keeps it below window 2.
    s.map_element(sized(1, 1, 100, 100), Point { x: 10, y: 10 }, false);
    assert_eq!(s.window_ids(), vec![1, 2]);
    assert_eq!(s.element_location(1), Some(Point { x: 10, y: 10 }));
    assert_eq!(s.element_under(px(50, 50)), Some((2, Point { x: 0, y: 0 })));
    // With activation it goes on top and is the one activated window.
    s.map_element(sized(1, 1, 100, 100), Point { x: 10, y: 10 }, true);
    assert_eq!(s.window_ids(), vec![2, 1]);
    assert!(s.window(1).unwrap().pending.activated);
    assert!(!s.window(2).unwrap().pending.activated);
    // Mapping again with the same arguments changes nothing.
    s.map_element(s.window(1).unwrap(), Point { x: 10, y: 10 }, true);
    assert_eq!(s.window_ids(), vec![2, 1]);
    assert_eq!(s.element_location(1), Some(Point { x: 10, y: 10 }));
}

#[test]
fn raise_unmapped_does_nothing() {
    let mut s = Space::new();
    s.map_element(sized(1, 1, 10, 10), Point { x: 0, y: 0 }, false);
    s.raise_element(9, true);
    assert_eq!(s.window_ids(), vec![1]);
    assert!(!s.window(1).unwrap().pending.activated);
}

#[test]
fn queries_on_unmapped_are_none() {
    let s = Space::new();
    assert!(s.element_geometry(3).is_none());
    assert!(s.element_location(3).is_none());
    assert!(s.output_geometry(3).is_none());
    assert!(s.window(3).is_none());
    assert!(s.outputs_for_element(3).is_empty());
}

#[test]
fn refresh_drops_dead_windows() {
    let mut s = Space::new();
    s.map_element(sized(1, 1, 10, 10), Point { x: 0, y: 0 }, false);
    let mut dead = sized(2, 1, 10, 10);
    dead.alive = false;
    s.map_element(dead, Point { x: 0, y: 0 }, false);
    s.map_element(sized(3, 1, 10, 10), Point { x: 0, y: 0 }, false);
    s.refresh();
    assert_eq!(s.window_ids(), vec![1, 3]);
}

#[test]
fn outputs_for_element_by_overlap() {
    let mut s = Space::new();
    s.map_output(10, Point { x: 0, y: 0 }, Size { w: 100, h: 100 });
    s.map_output(11, Point { x: 100, y: 0 }, Size { w: 100, h: 100 });
    s.map_element(sized(1, 1, 50, 50), Point { x: 80, y: 10 }, false);
    s.map_element(sized(2, 1, 50, 50), Point { x: 120, y: 10 }, false);
    s.map_element(sized(3, 1, 50, 50), Point { x: 300, y: 10 }, false);
    assert_eq!(s.outputs_for_element(1), vec![10, 11]);
    assert_eq!(s.outputs_for_element(2), vec![11]);
    assert!(s.outputs_for_element(3).is_empty());
    assert_eq!(
        s.output_geometry(11),
        Some(Rectangle { loc: Point { x: 100, y: 0 }, size: Size { w: 100, h: 100 } })
    );
    assert_eq!(
        s.element_geometry(1),
        Some(Rectangle { loc: Point { x: 80, y: 10 }, size: Size { w: 50, h: 50 } })
    );
}

#[test]
fn render_elements_topmost_first_on_output() {
    let mut s = Space::new();
    s.map_element(sized(1, 1, 50, 50), Point { x: 0, y: 0 }, false);
    s.map_element(sized(2, 1, 50, 50), Point { x: 500, y: 0 }, false);
    s.map_element(sized(3, 1, 50, 50), Point { x: 10, y: 10 }, false);
    let out = Rectangle { loc: Point { x: 0, y: 0 }, size: Size { w: 100, h: 100 } };
    let ids: Vec<u32> = s.render_elements(out).iter().map(|e| e.window.id).collect();
    assert_eq!(ids, vec![3, 1]);
}

#[test]
fn rectangle_overlap_needs_area() {
    let a = Rectangle { loc: Point { x: 0, y: 0 }, size: Size { w: 10, h: 10 } };
    let b = Rectangle { loc: Point { x: 10, y: 0 }, size: Size { w: 10, h: 10 } };
    let c = Rectangle { loc: Point { x: 9, y: 9 }, size: Size { w: 10, h: 10 } };
    assert!(!a.overlaps(&b));
    assert!(a.overlaps(&c));
    assert!(a.contains(FixedPoint { x: 0, y: 0 }));
    assert!(!a.contains(FixedPoint { x: -1, y: 0 }));
}

#[test]
fn rounding_halves_away_from_zero() {
    assert_eq!(twm::geometry::round_fixed_exec(128), 1);
    assert_eq!(twm::geometry::round_fixed_exec(127), 0);
    assert_eq!(twm::geometry::round_fixed_exec(-128), -1);
    assert_eq!(twm::geometry::round_fixed_exec(-127), 0);
    assert_eq!(twm::geometry::round_fixed_exec(256 * 5), 5);
    assert_eq!(twm::geometry::clamp_i64(7, 0, 5), 5);
    assert_eq!(twm::geometry::clamp_i64(-7, 0, 5), 0);
}
