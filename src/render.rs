//! Composing a frame: the cursor on top of the windows of the active
//! output, the frame callbacks owed, and the refresh that ends each redraw.
use vstd::prelude::*;
use crate::geometry::{round_fixed, round_fixed_exec, FixedPoint, Point};
use crate::grab::{saturate, saturate_exec};
use crate::input::active_output;
use crate::redraw::RedrawState;
use crate::space::{alive_only, render_list, Element};
use crate::state::{Frame, RenderElement, Twm};

verus! {

/// The pixel the cursor is drawn at: the pointer position rounded.
pub open spec fn cursor_pixel(p: FixedPoint) -> Point {
    Point { x: saturate(round_fixed(p.x as int)) as i32, y: saturate(round_fixed(p.y as int)) as i32 }
}

/// The drawable element of a mapped window.
pub open spec fn window_element(e: Element) -> RenderElement {
    RenderElement::Window { id: e.window.id, loc: e.loc }
}

impl Twm {
    /// Runs the queued redraw. On an active output the frame holds the
    /// cursor first (drawn on top), then the windows overlapping the output
    /// topmost first, and every mapped window is owed a frame callback;
    /// without an output the frame is empty. Dead windows are then dropped.
    /// The redraw is in flight until presentation when `wait_for_vblank`.
    pub fn redraw(&mut self, wait_for_vblank: bool) -> (frame: Frame)
        requires
            old(self).wf(),
            old(self).redraw_state.redraw_queued,
            !old(self).redraw_state.waiting_for_vblank,
        ensures
            final(self).wf(),
            final(self).redraw_state == (RedrawState { redraw_queued: false, waiting_for_vblank: wait_for_vblank }),
            match active_output(old(self)) {
                Some(out) => {
                    &&& frame.elements@ == seq![RenderElement::Cursor(cursor_pixel(old(self).pointer_location))]
                        + render_list(old(self).space@.elements, out).map_values(|e: Element| window_element(e))
                    &&& frame.frame_callbacks@ == old(self).space@.elements.map_values(|e: Element| e.window.id)
                },
                None => frame.elements@.len() == 0 && frame.frame_callbacks@.len() == 0,
            },
            final(self).space@.elements == alive_only(old(self).space@.elements),
            final(self).space@.outputs == old(self).space@.outputs,
            final(self).pointer_location == old(self).pointer_location,
            final(self).pressed_buttons@ == old(self).pressed_buttons@,
            final(self).grab == old(self).grab,
            final(self).keyboard_focus == old(self).keyboard_focus,
            final(self).output == old(self).output,
    {
        self.redraw_state.start_redraw(wait_for_vblank);
        let mut elements: Vec<RenderElement> = Vec::new();
        let mut frame_callbacks: Vec<u32> = Vec::new();
        match self.active_output_geometry() {
            Some(out) => {
                let loc = self.pointer_location;
                elements.push(RenderElement::Cursor(Point {
                    x: saturate_exec(round_fixed_exec(loc.x)),
                    y: saturate_exec(round_fixed_exec(loc.y)),
                }));
                let rs = self.space.render_elements(out);
                let ghost head = elements@;
                let mut i: usize = 0;
                while i < rs.len()
                    invariant
                        i <= rs@.len(),
                        elements@ == head + rs@.subrange(0, i as int).map_values(|e: Element| window_element(e)),
                    decreases rs.len() - i,
                {
                    let e = rs[i];
                    elements.push(RenderElement::Window { id: e.window.id, loc: e.loc });
                    i = i + 1;
                    assert(elements@ =~= head + rs@.subrange(0, i as int).map_values(|e: Element| window_element(e)));
                }
                assert(rs@.subrange(0, i as int) =~= rs@);
                frame_callbacks = self.space.window_ids();
            },
            None => {},
        }
        self.space.refresh();
        Frame { elements, frame_callbacks }
    }

    /// Cancels the grab in force, leaving no window referenced by it.
    pub fn unset_grab(&mut self)
        ensures
            final(self).grab is None,
            final(self).space@ == old(self).space@,
            final(self).pointer_location == old(self).pointer_location,
            final(self).pressed_buttons@ == old(self).pressed_buttons@,
            final(self).keyboard_focus == old(self).keyboard_focus,
            final(self).redraw_state == old(self).redraw_state,
            final(self).output == old(self).output,
    {
        self.grab = None;
    }

    /// The frame in flight has been presented; redraws may be queued again.
    pub fn vblank(&mut self)
        requires
            old(self).wf(),
        ensures
            final(self).wf(),
            final(self).redraw_state == old(self).redraw_state.presented_spec(),
            final(self).space@ == old(self).space@,
            final(self).pointer_location == old(self).pointer_location,
            final(self).pressed_buttons@ == old(self).pressed_buttons@,
            final(self).grab == old(self).grab,
            final(self).keyboard_focus == old(self).keyboard_focus,
            final(self).output == old(self).output,
    {
        self.redraw_state.vblank();
    }
}

} // verus!
