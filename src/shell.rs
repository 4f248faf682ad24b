//! Requests of client toplevels: creation and destruction, interactive
//! move and resize, fullscreen and maximize, and configure bookkeeping.
use vstd::prelude::*;
use crate::geometry::{clamp_i64, clamp_spec, Point, Rectangle, Size};
use crate::grab::{check_grab, grab_for_request, MoveSurfaceGrab, PointerGrab, ResizeEdges, ResizeSurfaceGrab};
use crate::space::{find, fresh_window, geometry_of, mapped, window_of, Element, Window};
use crate::state::{
    fullscreen_state, fullscreen_target, maximized_state, output_geometry_of, unfullscreen_state,
    unmaximized_state, with_pending, Effect, Twm,
};

verus! {

/// The stack after the window `id` (if mapped) takes the record `f(w)`.
pub open spec fn window_updated(es: Seq<Element>, id: u32, w: Window) -> Seq<Element> {
    match find(es, id) {
        Some(i) => es.update(i, Element { window: w, loc: es[i].loc }),
        None => es,
    }
}

/// Whether a move or resize request for window `id` citing `serial` is
/// honoured: the window is mapped, the grab in force is the implicit one of
/// that serial, and the window under the pointer at the press belonged to
/// the window's client.
pub open spec fn grab_accepted(t: &Twm, id: u32, serial: u32) -> bool {
    window_of(t.space@.elements, id) matches Some(w) && grab_for_request(t.grab, w.client, serial) is Some
}

impl Twm {
    /// A client created a toplevel: it is mapped at the origin.
    pub fn new_toplevel(&mut self, id: u32, client: u32, can_fullscreen: bool, can_maximize: bool)
        requires
            old(self).wf(),
        ensures
            final(self).wf(),
            final(self).space@.elements == mapped(
                old(self).space@.elements,
                fresh_window(id, client, can_fullscreen, can_maximize),
                Point { x: 0, y: 0 },
                false,
            ),
            final(self).space@.outputs == old(self).space@.outputs,
            final(self).keeps_input(old(self)),
    {
        let w = Window::new(id, client, can_fullscreen, can_maximize);
        self.space.map_element(w, Point { x: 0, y: 0 }, false);
    }

    /// A client asks to move window `id` interactively, citing the serial
    /// of the button press that started it. The move grab starts only if
    /// the grab in force is the implicit one of that serial and the window
    /// under the pointer at the press belonged to the same client (see
    /// `grab_accepted`); pointer focus is then cleared. Else nothing changes.
    pub fn move_request(&mut self, id: u32, serial: u32) -> (effects: Vec<Effect>)
        requires
            old(self).wf(),
        ensures
            final(self).wf(),
            final(self).space@ == old(self).space@,
            grab_accepted(old(self), id, serial) ==> {
                &&& final(self).grab == Some(PointerGrab::Move(MoveSurfaceGrab {
                    start_data: grab_for_request(old(self).grab, window_of(old(self).space@.elements, id).unwrap().client, serial).unwrap(),
                    window: id,
                    initial_window_location: old(self).space@.elements[find(old(self).space@.elements, id).unwrap()].loc,
                }))
                &&& effects@ == seq![Effect::ClearPointerFocus]
            },
            !grab_accepted(old(self), id, serial) ==> final(self).grab == old(self).grab && effects@.len() == 0,
            final(self).pointer_location == old(self).pointer_location,
            final(self).pressed_buttons@ == old(self).pressed_buttons@,
            final(self).keyboard_focus == old(self).keyboard_focus,
            final(self).redraw_state == old(self).redraw_state,
            final(self).output == old(self).output,
    {
        let mut effects: Vec<Effect> = Vec::new();
        let w = match self.space.window(id) {
            Some(w) => w,
            None => return effects,
        };
        match check_grab(&self.grab, w.client, serial) {
            Some(start_data) => {
                let loc = match self.space.element_location(id) {
                    Some(l) => l,
                    None => return effects,
                };
                self.grab = Some(PointerGrab::Move(MoveSurfaceGrab {
                    start_data,
                    window: id,
                    initial_window_location: loc,
                }));
                effects.push(Effect::ClearPointerFocus);
                effects
            },
            None => effects,
        }
    }

    /// A client asks to resize window `id` interactively by the given
    /// edges, citing a button press serial. Accepted on the same terms as a
    /// move: the window is then marked as resizing and told so, the resize
    /// grab starts from its current geometry, and pointer focus is cleared.
    pub fn resize_request(&mut self, id: u32, serial: u32, edges: ResizeEdges) -> (effects: Vec<Effect>)
        requires
            old(self).wf(),
        ensures
            final(self).wf(),
            final(self).space@.outputs == old(self).space@.outputs,
            final(self).pointer_location == old(self).pointer_location,
            final(self).pressed_buttons@ == old(self).pressed_buttons@,
            final(self).keyboard_focus == old(self).keyboard_focus,
            final(self).redraw_state == old(self).redraw_state,
            final(self).output == old(self).output,
            match window_of(old(self).space@.elements, id) {
                Some(w) => match grab_for_request(old(self).grab, w.client, serial) {
                    Some(start_data) => {
                        &&& final(self).space@.elements == window_updated(
                            old(self).space@.elements,
                            id,
                            with_pending(w, crate::space::ToplevelState { resizing: true, ..w.pending }),
                        )
                        &&& final(self).grab == Some(PointerGrab::Resize(ResizeSurfaceGrab {
                            start_data,
                            window: id,
                            edges,
                            initial_window_rect: geometry_of(old(self).space@.elements, id).unwrap(),
                        }))
                        &&& effects@ == seq![Effect::SendPendingConfigure(id), Effect::ClearPointerFocus]
                    },
                    None => {
                        &&& final(self).space@ == old(self).space@
                        &&& final(self).grab == old(self).grab
                        &&& effects@.len() == 0
                    },
                },
                None => {
                    &&& final(self).space@ == old(self).space@
                    &&& final(self).grab == old(self).grab
                    &&& effects@.len() == 0
                },
            },
    {
        let mut effects: Vec<Effect> = Vec::new();
        let w = match self.space.window(id) {
            Some(w) => w,
            None => return effects,
        };
        match check_grab(&self.grab, w.client, serial) {
            Some(start_data) => {
                let rect = match self.space.element_geometry(id) {
                    Some(r) => r,
                    None => return effects,
                };
                let mut w2 = w;
                w2.pending.resizing = true;
                self.space.update_window(w2);
                effects.push(Effect::SendPendingConfigure(id));
                effects.push(Effect::ClearPointerFocus);
                self.grab = Some(PointerGrab::Resize(ResizeSurfaceGrab {
                    start_data,
                    window: id,
                    edges,
                    initial_window_rect: rect,
                }));
                effects
            },
            None => effects,
        }
    }
}

impl Twm {
    /// The output a fullscreen request goes to (see `fullscreen_target`).
    fn fullscreen_output(&self, id: u32, output: Option<u32>) -> (r: Option<Rectangle>)
        requires
            self.wf(),
        ensures
            r == fullscreen_target(self.space@, id, output),
    {
        let named = match output {
            Some(o) => self.space.output_geometry(o),
            None => None,
        };
        if named.is_some() {
            return named;
        }
        let os = self.space.outputs_for_element(id);
        if os.len() > 0 {
            self.space.output_geometry(os[0])
        } else {
            None
        }
    }

    /// A client asks for window `id` to be fullscreen, on the output named
    /// or else on the first output the window overlaps. If the window may
    /// go fullscreen and such an output exists, the window's pending state
    /// becomes fullscreen at the output's size and the window is mapped at
    /// the output's corner, raised and activated. Either way the client gets
    /// a configure.
    pub fn fullscreen_request(&mut self, id: u32, output: Option<u32>) -> (effects: Vec<Effect>)
        requires
            old(self).wf(),
        ensures
            final(self).wf(),
            final(self).keeps_input(old(self)),
            final(self).space@.outputs == old(self).space@.outputs,
            final(self).space@.elements == (match (
                window_of(old(self).space@.elements, id),
                fullscreen_target(old(self).space@, id, output),
            ) {
                (Some(w), Some(g)) => if w.can_fullscreen {
                    mapped(old(self).space@.elements, with_pending(w, fullscreen_state(w.pending, g.size)), g.loc, true)
                } else {
                    old(self).space@.elements
                },
                _ => old(self).space@.elements,
            }),
            effects@ == seq![Effect::SendConfigure(id)],
    {
        match self.space.window(id) {
            Some(w) => {
                if w.can_fullscreen {
                    match self.fullscreen_output(id, output) {
                        Some(g) => {
                            let mut w2 = w;
                            w2.pending.fullscreen = true;
                            w2.pending.size = Some(g.size);
                            self.space.map_element(w2, g.loc, true);
                        },
                        None => {},
                    }
                }
            },
            None => {},
        }
        vec![Effect::SendConfigure(id)]
    }

    /// A client asks for window `id` to leave fullscreen. If the window is
    /// fullscreen, its pending state drops fullscreen and the size asked for,
    /// and the client is told; else nothing happens.
    pub fn unfullscreen_request(&mut self, id: u32) -> (effects: Vec<Effect>)
        requires
            old(self).wf(),
        ensures
            final(self).wf(),
            final(self).keeps_input(old(self)),
            final(self).space@.outputs == old(self).space@.outputs,
            match window_of(old(self).space@.elements, id) {
                Some(w) => if w.current.fullscreen {
                    &&& final(self).space@.elements == window_updated(
                        old(self).space@.elements,
                        id,
                        with_pending(w, unfullscreen_state(w.pending)),
                    )
                    &&& effects@ == seq![Effect::SendPendingConfigure(id)]
                } else {
                    &&& final(self).space@.elements == old(self).space@.elements
                    &&& effects@.len() == 0
                },
                None => {
                    &&& final(self).space@.elements == old(self).space@.elements
                    &&& effects@.len() == 0
                },
            },
    {
        let mut effects: Vec<Effect> = Vec::new();
        match self.space.window(id) {
            Some(w) => {
                if w.current.fullscreen {
                    let mut w2 = w;
                    w2.pending.fullscreen = false;
                    w2.pending.size = None;
                    self.space.update_window(w2);
                    effects.push(Effect::SendPendingConfigure(id));
                }
            },
            None => {},
        }
        effects
    }

    /// A client asks for window `id` to be maximized. If the window may be
    /// maximized and an output is active, its pending state becomes
    /// maximized at the output's size and the window is mapped at the
    /// output's corner, raised and activated. Either way the client gets a
    /// configure.
    pub fn maximize_request(&mut self, id: u32) -> (effects: Vec<Effect>)
        requires
            old(self).wf(),
        ensures
            final(self).wf(),
            final(self).keeps_input(old(self)),
            final(self).space@.outputs == old(self).space@.outputs,
            final(self).space@.elements == (match (
                window_of(old(self).space@.elements, id),
                old(self).output,
            ) {
                (Some(w), Some(o)) => match output_geometry_of(old(self).space@, o) {
                    Some(g) => if w.can_maximize {
                        mapped(old(self).space@.elements, with_pending(w, maximized_state(w.pending, g.size)), g.loc, true)
                    } else {
                        old(self).space@.elements
                    },
                    None => old(self).space@.elements,
                },
                _ => old(self).space@.elements,
            }),
            effects@ == seq![Effect::SendConfigure(id)],
    {
        match self.space.window(id) {
            Some(w) => {
                if w.can_maximize {
                    let geometry = match self.output {
                        Some(o) => self.space.output_geometry(o),
                        None => None,
                    };
                    match geometry {
                        Some(g) => {
                            let mut w2 = w;
                            w2.pending.maximized = true;
                            w2.pending.size = Some(g.size);
                            self.space.map_element(w2, g.loc, true);
                        },
                        None => {},
                    }
                }
            },
            None => {},
        }
        vec![Effect::SendConfigure(id)]
    }

    /// A client asks for window `id` to be unmaximized. If the window is
    /// maximized, its pending state drops maximized and the size asked for.
    /// Either way the client gets a configure.
    pub fn unmaximize_request(&mut self, id: u32) -> (effects: Vec<Effect>)
        requires
            old(self).wf(),
        ensures
            final(self).wf(),
            final(self).keeps_input(old(self)),
            final(self).space@.outputs == old(self).space@.outputs,
            final(self).space@.elements == (match window_of(old(self).space@.elements, id) {
                Some(w) => if w.current.maximized {
                    window_updated(old(self).space@.elements, id, with_pending(w, unmaximized_state(w.pending)))
                } else {
                    old(self).space@.elements
                },
                None => old(self).space@.elements,
            }),
            effects@ == seq![Effect::SendConfigure(id)],
    {
        match self.space.window(id) {
            Some(w) => {
                if w.current.maximized {
                    let mut w2 = w;
                    w2.pending.maximized = false;
                    w2.pending.size = None;
                    self.space.update_window(w2);
                }
            },
            None => {},
        }
        vec![Effect::SendConfigure(id)]
    }
}

impl Twm {
    /// The client destroyed toplevel `id`: the window is marked dead, to be
    /// dropped by the next refresh, and a redraw is asked for.
    pub fn toplevel_destroyed(&mut self, id: u32) -> (effects: Vec<Effect>)
        requires
            old(self).wf(),
        ensures
            final(self).wf(),
            final(self).space@.outputs == old(self).space@.outputs,
            final(self).space@.elements == (match window_of(old(self).space@.elements, id) {
                Some(w) => window_updated(old(self).space@.elements, id, Window { alive: false, ..w }),
                None => old(self).space@.elements,
            }),
            (final(self).redraw_state, effects@.len() == 1) == old(self).redraw_state.queue_spec(),
            effects@.len() == 1 ==> effects@[0] == Effect::ScheduleRedraw,
            effects@.len() <= 1,
            final(self).pointer_location == old(self).pointer_location,
            final(self).pressed_buttons@ == old(self).pressed_buttons@,
            final(self).grab == old(self).grab,
            final(self).keyboard_focus == old(self).keyboard_focus,
            final(self).output == old(self).output,
    {
        match self.space.window(id) {
            Some(w) => {
                let mut w2 = w;
                w2.alive = false;
                self.space.update_window(w2);
            },
            None => {},
        }
        self.popup_destroyed()
    }

    /// A popup was destroyed: a redraw is asked for.
    pub fn popup_destroyed(&mut self) -> (effects: Vec<Effect>)
        requires
            old(self).wf(),
        ensures
            final(self).wf(),
            final(self).space@ == old(self).space@,
            (final(self).redraw_state, effects@.len() == 1) == old(self).redraw_state.queue_spec(),
            effects@.len() == 1 ==> effects@[0] == Effect::ScheduleRedraw,
            effects@.len() <= 1,
            final(self).pointer_location == old(self).pointer_location,
            final(self).pressed_buttons@ == old(self).pressed_buttons@,
            final(self).grab == old(self).grab,
            final(self).keyboard_focus == old(self).keyboard_focus,
            final(self).output == old(self).output,
    {
        let mut effects: Vec<Effect> = Vec::new();
        if self.queue_redraw() {
            effects.push(Effect::ScheduleRedraw);
        }
        effects
    }

    /// Window `id` committed a surface of the given size. The first commit
    /// of a toplevel gets its initial configure.
    pub fn handle_commit(&mut self, id: u32, size: Size) -> (effects: Vec<Effect>)
        requires
            old(self).wf(),
            size.valid(),
        ensures
            final(self).wf(),
            final(self).keeps_input(old(self)),
            final(self).space@.outputs == old(self).space@.outputs,
            match window_of(old(self).space@.elements, id) {
                Some(w) => {
                    &&& final(self).space@.elements == window_updated(
                        old(self).space@.elements,
                        id,
                        Window { size, initial_configure_sent: true, ..w },
                    )
                    &&& effects@ == if w.initial_configure_sent {
                        Seq::<Effect>::empty()
                    } else {
                        seq![Effect::SendConfigure(id)]
                    }
                },
                None => {
                    &&& final(self).space@.elements == old(self).space@.elements
                    &&& effects@.len() == 0
                },
            },
    {
        let mut effects: Vec<Effect> = Vec::new();
        match self.space.window(id) {
            Some(w) => {
                if !w.initial_configure_sent {
                    effects.push(Effect::SendConfigure(id));
                }
                let mut w2 = w;
                w2.size = size;
                w2.initial_configure_sent = true;
                self.space.update_window(w2);
            },
            None => {},
        }
        effects
    }

    /// The client of window `id` acknowledged the state last sent, which
    /// becomes its current state.
    pub fn ack_configure(&mut self, id: u32)
        requires
            old(self).wf(),
        ensures
            final(self).wf(),
            final(self).keeps_input(old(self)),
            final(self).space@.outputs == old(self).space@.outputs,
            final(self).space@.elements == (match window_of(old(self).space@.elements, id) {
                Some(w) => window_updated(old(self).space@.elements, id, Window { current: w.pending, ..w }),
                None => old(self).space@.elements,
            }),
    {
        match self.space.window(id) {
            Some(w) => {
                let mut w2 = w;
                w2.current = w.pending;
                self.space.update_window(w2);
            },
            None => {},
        }
    }

    /// The area a popup of window `root` must be placed in, relative to its
    /// parent: the first output's geometry, shifted back by the popup's
    /// offset from the toplevel and by the toplevel's location (coordinates
    /// limited to the range of `i32`). `None` when no output is mapped or
    /// `root` is not.
    pub fn popup_target(&self, root: u32, popup_offset: Point) -> (r: Option<Rectangle>)
        requires
            self.wf(),
        ensures
            r == (if self.space@.outputs.len() > 0 && geometry_of(self.space@.elements, root) is Some {
                let out = self.space@.outputs[0].geometry;
                let win = geometry_of(self.space@.elements, root).unwrap();
                Some(Rectangle {
                    loc: Point {
                        x: clamp_spec(out.loc.x - popup_offset.x - win.loc.x, i32::MIN as int, i32::MAX as int) as i32,
                        y: clamp_spec(out.loc.y - popup_offset.y - win.loc.y, i32::MIN as int, i32::MAX as int) as i32,
                    },
                    size: out.size,
                })
            } else {
                None
            }),
    {
        let out = match self.space.first_output() {
            Some(o) => o.geometry,
            None => return None,
        };
        let win = match self.space.element_geometry(root) {
            Some(g) => g,
            None => return None,
        };
        let x = clamp_i64(
            out.loc.x as i64 - popup_offset.x as i64 - win.loc.x as i64,
            i32::MIN as i64,
            i32::MAX as i64,
        ) as i32;
        let y = clamp_i64(
            out.loc.y as i64 - popup_offset.y as i64 - win.loc.y as i64,
            i32::MIN as i64,
            i32::MAX as i64,
        ) as i32;
        Some(Rectangle { loc: Point { x, y }, size: out.size })
    }
}

} // verus!
