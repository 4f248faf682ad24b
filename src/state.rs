//! The compositor's state and its decisions. Every entry point takes an
//! event or a client request and returns the effects the caller must carry
//! out, in order: messages to clients, focus changes, a redraw to schedule.
use vstd::prelude::*;
use crate::axis::{AxisEvent, AxisFrame};
use crate::geometry::{FixedPoint, Point, Rectangle, Size};
use crate::grab::{pointer_in_bounds, PointerGrab};
use crate::redraw::RedrawState;
use crate::space::{
    find_output, geometry_of, lemma_find_output_at, meeting_outputs, top_hit, OutputInfo, Space, SpaceView,
    ToplevelState, Window,
};

verus! {

/// Something the caller must do on behalf of the compositor.
#[derive(Clone, Copy, Debug, PartialEq, Eq, Structural)]
pub enum Effect {
    /// Stop the event loop.
    Quit,
    /// Start the terminal program.
    SpawnTerminal,
    /// Switch the session to that virtual terminal.
    SwitchVt(i32),
    /// Ask the window's client to close it.
    SendClose(u32),
    /// Send the window's pending state, whether or not it changed.
    SendConfigure(u32),
    /// Send the window's pending state if it differs from the last one sent.
    SendPendingConfigure(u32),
    /// Give keyboard focus to the window, or to nobody.
    SetKeyboardFocus(Option<u32>),
    /// Take pointer focus from every client, as a grab starts.
    ClearPointerFocus,
    /// Tell the window under the pointer (if any) where the pointer is, at
    /// the event's time in milliseconds.
    PointerMotion { focus: Option<u32>, location: FixedPoint, time: u32 },
    /// Tell the window under the pointer how far the device moved, with and
    /// without acceleration, at the event's time in microseconds.
    PointerRelativeMotion {
        focus: Option<u32>,
        dx: i64,
        dy: i64,
        dx_unaccel: i64,
        dy_unaccel: i64,
        utime: u64,
    },
    /// Forward a button event to the pointer focus.
    PointerButton { button: u32, pressed: bool, serial: u32, time: u32 },
    /// Forward a scroll frame to the pointer focus.
    PointerAxis(AxisFrame),
    /// Close the group of pointer events sent so far.
    PointerFrame,
    /// Schedule the deferred redraw callback.
    ScheduleRedraw,
}

/// A pointer event from an input device. Distances and positions are in
/// fixed point; the absolute position is relative to the output's corner.
/// `time` is the device's timestamp in milliseconds, `utime` in
/// microseconds.
#[derive(Clone, Copy, Debug, PartialEq, Eq, Structural)]
pub enum InputEvent {
    PointerMotion { dx: i64, dy: i64, dx_unaccel: i64, dy_unaccel: i64, time: u32, utime: u64 },
    PointerMotionAbsolute { x: i64, y: i64, time: u32 },
    PointerButton { button: u32, pressed: bool, serial: u32, time: u32 },
    PointerAxis(AxisEvent),
}

/// One drawable element of a frame.
#[derive(Clone, Copy, Debug, PartialEq, Eq, Structural)]
pub enum RenderElement {
    /// The cursor, with its top-left corner at that pixel.
    Cursor(Point),
    /// A window, drawn at that location.
    Window { id: u32, loc: Point },
}

/// What one redraw hands to the backend: the elements, topmost first, and
/// the windows owed a frame callback once it is submitted.
pub struct Frame {
    pub elements: Vec<RenderElement>,
    pub frame_callbacks: Vec<u32>,
}

/// The compositor's state: layout, pointer, focus, grab and redraw flags.
pub struct Twm {
    pub space: Space,
    pub pointer_location: FixedPoint,
    /// Buttons held down, each once, in the order they were pressed.
    pub pressed_buttons: Vec<u32>,
    pub grab: Option<PointerGrab>,
    /// Window with keyboard focus, looked up in the space when used.
    pub keyboard_focus: Option<u32>,
    pub redraw_state: RedrawState,
    /// The active output.
    pub output: Option<u32>,
}

/// `w` with its pending state replaced.
pub open spec fn with_pending(w: Window, p: ToplevelState) -> Window {
    Window { pending: p, ..w }
}

pub open spec fn fullscreen_state(p: ToplevelState, size: Size) -> ToplevelState {
    ToplevelState { fullscreen: true, size: Some(size), ..p }
}

pub open spec fn maximized_state(p: ToplevelState, size: Size) -> ToplevelState {
    ToplevelState { maximized: true, size: Some(size), ..p }
}

pub open spec fn unfullscreen_state(p: ToplevelState) -> ToplevelState {
    ToplevelState { fullscreen: false, size: None, ..p }
}

pub open spec fn unmaximized_state(p: ToplevelState) -> ToplevelState {
    ToplevelState { maximized: false, size: None, ..p }
}

/// The geometry of output `o`, if mapped.
pub open spec fn output_geometry_of(s: SpaceView, o: u32) -> Option<Rectangle> {
    match find_output(s.outputs, o) {
        Some(i) => Some(s.outputs[i].geometry),
        None => None,
    }
}

/// The output a fullscreen request of window `id` goes to: the one named,
/// if mapped, else the first output the window overlaps.
pub open spec fn fullscreen_target(s: SpaceView, id: u32, output: Option<u32>) -> Option<Rectangle> {
    let named = match output {
        Some(o) => output_geometry_of(s, o),
        None => None,
    };
    if named is Some {
        named
    } else {
        match geometry_of(s.elements, id) {
            Some(g) => {
                let os = meeting_outputs(s.outputs, g);
                if os.len() > 0 {
                    output_geometry_of(s, os[0])
                } else {
                    None
                }
            },
            None => None,
        }
    }
}

impl Twm {
    pub open spec fn wf(&self) -> bool {
        &&& self.space.wf()
        &&& pointer_in_bounds(self.pointer_location)
        &&& self.grab matches Some(g) ==> g.wf()
        &&& self.redraw_state.wf()
        &&& forall|i: int| 0 <= i < self.space@.outputs.len() ==> (#[trigger] self.space@.outputs[i]).geometry.loc == (Point { x: 0, y: 0 })
    }

    /// Everything but the space is as in `o`.
    pub open spec fn keeps_input(&self, o: &Twm) -> bool {
        &&& self.pointer_location == o.pointer_location
        &&& self.pressed_buttons@ == o.pressed_buttons@
        &&& self.grab == o.grab
        &&& self.keyboard_focus == o.keyboard_focus
        &&& self.redraw_state == o.redraw_state
        &&& self.output == o.output
    }

    /// A compositor with nothing mapped, the pointer at the origin, no
    /// focus, no grab and no redraw pending.
    pub fn new() -> (r: Twm)
        ensures
            r.wf(),
            r.space@.elements.len() == 0,
            r.space@.outputs.len() == 0,
            r.pointer_location == (FixedPoint { x: 0, y: 0 }),
            r.pressed_buttons@.len() == 0,
            r.grab is None,
            r.keyboard_focus is None,
            r.redraw_state.idle(),
            r.output is None,
    {
        Twm {
            space: Space::new(),
            pointer_location: FixedPoint { x: 0, y: 0 },
            pressed_buttons: Vec::new(),
            grab: None,
            keyboard_focus: None,
            redraw_state: RedrawState::new(),
            output: None,
        }
    }

    /// Maps output `id` at the origin with the given size, or resizes it,
    /// and makes it the active output.
    pub fn set_output(&mut self, id: u32, size: Size)
        requires
            old(self).wf(),
            size.valid(),
        ensures
            final(self).wf(),
            final(self).output == Some(id),
            output_geometry_of(final(self).space@, id) == Some(Rectangle { loc: Point { x: 0, y: 0 }, size }),
            final(self).space@.outputs == (match find_output(old(self).space@.outputs, id) {
                Some(i) => old(self).space@.outputs.update(
                    i,
                    OutputInfo { id, geometry: Rectangle { loc: Point { x: 0, y: 0 }, size } },
                ),
                None => old(self).space@.outputs.push(
                    OutputInfo { id, geometry: Rectangle { loc: Point { x: 0, y: 0 }, size } },
                ),
            }),
            final(self).space@.elements == old(self).space@.elements,
            final(self).pointer_location == old(self).pointer_location,
            final(self).grab == old(self).grab,
            final(self).keyboard_focus == old(self).keyboard_focus,
            final(self).redraw_state == old(self).redraw_state,
    {
        let ghost before = self.space@.outputs;
        self.space.map_output(id, Point { x: 0, y: 0 }, size);
        self.output = Some(id);
        proof {
            let os = self.space@.outputs;
            let i = match find_output(before, id) {
                Some(i) => i,
                None => before.len() as int,
            };
            assert(os[i].id == id);
            lemma_find_output_at(os, i);
            assert forall|k: int| 0 <= k < os.len() implies (#[trigger] os[k]).geometry.loc == (Point { x: 0, y: 0 }) by {
                if k != i {
                    assert(os[k] == before[k]);
                }
            }
        }
    }

    /// Asks for a redraw; true when the caller must schedule the deferred
    /// redraw callback.
    pub fn queue_redraw(&mut self) -> (schedule: bool)
        ensures
            (final(self).redraw_state, schedule) == old(self).redraw_state.queue_spec(),
            final(self).space@ == old(self).space@,
            final(self).pointer_location == old(self).pointer_location,
            final(self).pressed_buttons@ == old(self).pressed_buttons@,
            final(self).grab == old(self).grab,
            final(self).keyboard_focus == old(self).keyboard_focus,
            final(self).output == old(self).output,
    {
        self.redraw_state.queue_redraw()
    }

    /// The window under the fixed-point position `p`, topmost first, with
    /// its location.
    pub fn surface_under(&self, p: FixedPoint) -> (r: Option<(u32, Point)>)
        requires
            self.wf(),
        ensures
            r == (match top_hit(self.space@.elements, p) {
                Some(i) => Some((self.space@.elements[i].window.id, self.space@.elements[i].loc)),
                None => None,
            }),
    {
        self.space.element_under(p)
    }
}

} // verus!
