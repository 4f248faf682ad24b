//! The input pipeline: pointer events move the cursor, hit-test the layout,
//! assign focus and drive the grab in force; intercepted key chords become
//! compositor actions. Everything else is forwarded.
use vstd::prelude::*;
use crate::axis::{axis_frame, frame_spec, AxisEvent};
use crate::geometry::{clamp_i64, clamp_spec, round_fixed, FixedPoint, Rectangle, FIXED_ONE};
use crate::grab::{
    move_target, pointer_in_bounds, resize_target, Focus, GrabStartData, MoveSurfaceGrab,
    PointerGrab, ResizeSurfaceGrab, POINTER_LIMIT,
};
use crate::keys::KeyAction;
use crate::space::{
    find, lemma_mapped_wf, mapped, raised, top_hit, window_of, with_activation, Element,
    ToplevelState, Window,
};
use crate::shell::window_updated;
use crate::state::{
    fullscreen_state, fullscreen_target, output_geometry_of, unfullscreen_state, with_pending, Effect,
    InputEvent, Twm,
};

verus! {

/// The window topmost under `p`.
pub open spec fn hit_id(es: Seq<Element>, p: FixedPoint) -> Option<u32> {
    match top_hit(es, p) {
        Some(i) => Some(es[i].window.id),
        None => None,
    }
}

/// The geometry of the active output of `t`.
pub open spec fn active_output(t: &Twm) -> Option<Rectangle> {
    match t.output {
        Some(o) => output_geometry_of(t.space@, o),
        None => None,
    }
}

/// A relative motion of `(dx, dy)` (each first limited to the pointer
/// range) from `loc`, kept inside `[0, width] x [0, height]` of the output.
/// Without an output the pointer stays where it is.
pub open spec fn relative_target(loc: FixedPoint, dx: i64, dy: i64, out: Option<Rectangle>) -> FixedPoint {
    match out {
        Some(r) => FixedPoint {
            x: clamp_spec(loc.x + clamp_spec(dx as int, -POINTER_LIMIT as int, POINTER_LIMIT as int), 0, r.size.w * FIXED_ONE) as i64,
            y: clamp_spec(loc.y + clamp_spec(dy as int, -POINTER_LIMIT as int, POINTER_LIMIT as int), 0, r.size.h * FIXED_ONE) as i64,
        },
        None => loc,
    }
}

/// An absolute position `(x, y)` relative to the output's corner, kept on
/// the output, in global coordinates.
pub open spec fn absolute_target(x: i64, y: i64, r: Rectangle) -> FixedPoint {
    FixedPoint {
        x: (r.loc.x * FIXED_ONE + clamp_spec(x as int, 0, r.size.w * FIXED_ONE)) as i64,
        y: (r.loc.y * FIXED_ONE + clamp_spec(y as int, 0, r.size.h * FIXED_ONE)) as i64,
    }
}

/// How pointer motion to `p` changes the stack and what it sends. A move
/// or resize grab keeps pointer focus from every client and drives its
/// window; otherwise the window under `p` gets the motion.
pub open spec fn motion_outcome(es: Seq<Element>, grab: Option<PointerGrab>, p: FixedPoint, time: u32) -> (Seq<Element>, Seq<Effect>) {
    let unfocused = Effect::PointerMotion { focus: None, location: p, time };
    match grab {
        Some(PointerGrab::Move(g)) => match window_of(es, g.window) {
            Some(w) => (mapped(es, w, move_target(g, p), true), seq![unfocused]),
            None => (es, seq![unfocused]),
        },
        Some(PointerGrab::Resize(g)) => match window_of(es, g.window) {
            Some(w) => {
                let r = resize_target(g, p);
                (
                    mapped(es, with_pending(w, ToplevelState { size: Some(r.size), ..w.pending }), r.loc, true),
                    seq![unfocused, Effect::SendPendingConfigure(g.window)],
                )
            },
            None => (es, seq![unfocused]),
        },
        _ => (es, seq![Effect::PointerMotion { focus: hit_id(es, p), location: p, time }]),
    }
}

/// One `SendPendingConfigure` per window, bottom of the stack first.
pub open spec fn configure_all(es: Seq<Element>) -> Seq<Effect> {
    es.map_values(|e: Element| Effect::SendPendingConfigure(e.window.id))
}

/// A press with no grab in force: the window under `p` is raised,
/// activated and focused; a press on no window clears focus and
/// activation. Every window is then reminded of its pending state.
/// Gives the new stack, the effects and the new keyboard focus.
pub open spec fn press_outcome(es: Seq<Element>, p: FixedPoint) -> (Seq<Element>, Seq<Effect>, Option<u32>) {
    match top_hit(es, p) {
        Some(i) => {
            let id = es[i].window.id;
            let r = raised(es, id, true);
            (r, seq![Effect::SetKeyboardFocus(Some(id))] + configure_all(r), Some(id))
        },
        None => {
            let r = with_activation(es, None);
            (r, configure_all(r) + seq![Effect::SetKeyboardFocus(None)], None)
        },
    }
}

/// The held buttons without `b`.
pub open spec fn without_button(s: Seq<u32>, b: u32) -> Seq<u32>
    decreases s.len(),
{
    if s.len() == 0 {
        s
    } else {
        let rest = without_button(s.drop_last(), b);
        if s.last() == b {
            rest
        } else {
            rest.push(s.last())
        }
    }
}

/// The held buttons after a press or release of `b`.
pub open spec fn buttons_after(s: Seq<u32>, b: u32, pressed: bool) -> Seq<u32> {
    if pressed {
        if s.contains(b) {
            s
        } else {
            s.push(b)
        }
    } else {
        without_button(s, b)
    }
}

/// The grab after a button event: a press with no grab starts the
/// implicit grab `start`; once no button is held, any grab ends.
pub open spec fn grab_after_button(grab: Option<PointerGrab>, pressed: bool, held: Seq<u32>, start: GrabStartData) -> Option<PointerGrab> {
    if pressed && grab is None {
        Some(PointerGrab::Implicit(start))
    } else if !pressed && held.len() == 0 {
        None
    } else {
        grab
    }
}

/// The implicit grab a press at `p` starts.
pub open spec fn press_start(es: Seq<Element>, p: FixedPoint, serial: u32, button: u32) -> GrabStartData {
    GrabStartData {
        serial,
        button,
        location: p,
        focus: match top_hit(es, p) {
            Some(i) => Some(Focus { window: es[i].window.id, client: es[i].window.client }),
            None => None,
        },
    }
}

/// The resize grab that a button event ends, if any.
pub open spec fn resize_ended(grab: Option<PointerGrab>, pressed: bool, held: Seq<u32>) -> Option<ResizeSurfaceGrab> {
    match grab {
        Some(PointerGrab::Resize(g)) => if !pressed && held.len() == 0 {
            Some(g)
        } else {
            None
        },
        _ => None,
    }
}

/// During a move grab, the grabbed window sits at its location at grab
/// start plus the pointer's travel since then, the sum rounded to the
/// nearest pixel (`move_target`), whatever motions came before: motion to
/// `p` leaves the window exactly there, and the window stays the one found
/// under its id. When the travel is a whole number of pixels the window
/// has moved by exactly that many.
pub proof fn lemma_move_grab_follows_pointer(es: Seq<Element>, g: MoveSurfaceGrab, p: FixedPoint, time: u32)
    requires
        crate::space::elements_wf(es),
        window_of(es, g.window) is Some,
    ensures
        ({
            let after = motion_outcome(es, Some(PointerGrab::Move(g)), p, time).0;
            let l0 = g.initial_window_location;
            let s = g.start_data.location;
            &&& crate::space::elements_wf(after)
            &&& find(after, g.window) matches Some(k) && after[k].loc == move_target(g, p)
                && after[k].loc.x == crate::grab::saturate(round_fixed(l0.x * FIXED_ONE + (p.x - s.x)))
                && after[k].loc.y == crate::grab::saturate(round_fixed(l0.y * FIXED_ONE + (p.y - s.y)))
                && ((p.x - s.x) % (FIXED_ONE as int) == 0 ==> after[k].loc.x == crate::grab::saturate(
                    l0.x + (p.x - s.x) / (FIXED_ONE as int),
                ))
                && ((p.y - s.y) % (FIXED_ONE as int) == 0 ==> after[k].loc.y == crate::grab::saturate(
                    l0.y + (p.y - s.y) / (FIXED_ONE as int),
                ))
        }),
{
    let l0 = g.initial_window_location;
    let s = g.start_data.location;
    let one = FIXED_ONE as int;
    let dx = p.x - s.x;
    let dy = p.y - s.y;
    if dx % one == 0 {
        let m = l0.x + dx / one;
        assert(l0.x * one + dx == m * one) by (nonlinear_arith)
            requires
                one == 256,
                dx % one == 0,
                m == l0.x + dx / one,
        ;
        crate::grab::lemma_round_whole(m);
    }
    if dy % one == 0 {
        let m = l0.y + dy / one;
        assert(l0.y * one + dy == m * one) by (nonlinear_arith)
            requires
                one == 256,
                dy % one == 0,
                m == l0.y + dy / one,
        ;
        crate::grab::lemma_round_whole(m);
    }
    let w = window_of(es, g.window).unwrap();
    let i = find(es, g.window).unwrap();
    assert(es[i].window.size.valid());
    lemma_mapped_wf(es, w, move_target(g, p), true);
}

/// Releasing the last held button ends any grab, implicit, move or resize;
/// the next motion then goes by hit-testing: the window under the pointer
/// gets it and the stack is left alone.
pub proof fn lemma_release_ends_grab(
    grab: Option<PointerGrab>,
    held: Seq<u32>,
    button: u32,
    start: GrabStartData,
    es: Seq<Element>,
    p: FixedPoint,
    time: u32,
)
    requires
        buttons_after(held, button, false).len() == 0,
    ensures
        grab_after_button(grab, false, buttons_after(held, button, false), start) is None,
        motion_outcome(es, grab_after_button(grab, false, buttons_after(held, button, false), start), p, time)
            == (es, seq![Effect::PointerMotion { focus: hit_id(es, p), location: p, time }]),
{
}

/// `[ScheduleRedraw]` when a redraw callback must be scheduled.
pub open spec fn scheduled_effect(scheduled: bool) -> Seq<Effect> {
    if scheduled {
        seq![Effect::ScheduleRedraw]
    } else {
        Seq::empty()
    }
}

/// The outcome of a relative motion of `(dx, dy)` from state `o`: the
/// pointer moves and stays on the output, the motion goes through the grab
/// (or to the window under the pointer), the relative motion to the window
/// under the pointer, and a redraw is asked for.
pub open spec fn motion_post(
    o: &Twm,
    n: &Twm,
    eff: Seq<Effect>,
    dx: i64,
    dy: i64,
    dx_unaccel: i64,
    dy_unaccel: i64,
    time: u32,
    utime: u64,
) -> bool {
    let p = relative_target(o.pointer_location, dx, dy, active_output(o));
    let (es, sent) = motion_outcome(o.space@.elements, o.grab, p, time);
    let (rs, scheduled) = o.redraw_state.queue_spec();
    &&& n.space@.elements == es
    &&& n.space@.outputs == o.space@.outputs
    &&& n.pointer_location == p
    &&& n.redraw_state == rs
    &&& eff == sent + seq![Effect::PointerRelativeMotion { focus: hit_id(o.space@.elements, p), dx, dy, dx_unaccel, dy_unaccel, utime }]
        + scheduled_effect(scheduled)
    &&& n.pressed_buttons@ == o.pressed_buttons@
    &&& n.grab == o.grab
    &&& n.keyboard_focus == o.keyboard_focus
    &&& n.output == o.output
}

/// The outcome of an absolute motion to `(x, y)` on the output: as a
/// relative one, closed by a frame; ignored when no output is active.
pub open spec fn absolute_post(o: &Twm, n: &Twm, eff: Seq<Effect>, x: i64, y: i64, time: u32) -> bool {
    match active_output(o) {
        Some(r) => {
            let p = absolute_target(x, y, r);
            let (es, sent) = motion_outcome(o.space@.elements, o.grab, p, time);
            let (rs, scheduled) = o.redraw_state.queue_spec();
            &&& n.space@.elements == es
            &&& n.space@.outputs == o.space@.outputs
            &&& n.pointer_location == p
            &&& n.redraw_state == rs
            &&& eff == sent + seq![Effect::PointerFrame] + scheduled_effect(scheduled)
            &&& n.pressed_buttons@ == o.pressed_buttons@
            &&& n.grab == o.grab
            &&& n.keyboard_focus == o.keyboard_focus
            &&& n.output == o.output
        },
        None => {
            &&& n.space@ == o.space@
            &&& n.keeps_input(o)
            &&& eff.len() == 0
        },
    }
}

/// The outcome of a button event: a press with no grab in force focuses
/// (see `press_outcome`) and starts the implicit grab; the held buttons are
/// updated; when none is left the grab ends, a resize telling its window it
/// is no longer resizing; the event is forwarded and the frame closed.
pub open spec fn button_post(o: &Twm, n: &Twm, eff: Seq<Effect>, button: u32, pressed: bool, serial: u32, time: u32) -> bool {
    let held = buttons_after(o.pressed_buttons@, button, pressed);
    let fresh = pressed && o.grab is None;
    let (es1, eff1, focus1) = if fresh {
        press_outcome(o.space@.elements, o.pointer_location)
    } else {
        (o.space@.elements, Seq::<Effect>::empty(), o.keyboard_focus)
    };
    let ended = resize_ended(o.grab, pressed, held);
    let (es2, eff2) = match ended {
        Some(g) => match window_of(es1, g.window) {
            Some(w) => (
                window_updated(es1, g.window, with_pending(w, ToplevelState { resizing: false, ..w.pending })),
                seq![Effect::SendPendingConfigure(g.window)],
            ),
            None => (es1, Seq::<Effect>::empty()),
        },
        None => (es1, Seq::<Effect>::empty()),
    };
    &&& n.space@.elements == es2
    &&& n.space@.outputs == o.space@.outputs
    &&& n.keyboard_focus == focus1
    &&& n.pressed_buttons@ == held
    &&& n.grab == grab_after_button(
        o.grab,
        pressed,
        held,
        press_start(o.space@.elements, o.pointer_location, serial, button),
    )
    &&& eff == eff1 + seq![Effect::PointerButton { button, pressed, serial, time }] + eff2 + seq![Effect::PointerFrame]
    &&& n.pointer_location == o.pointer_location
    &&& n.redraw_state == o.redraw_state
    &&& n.output == o.output
}

impl Twm {
    /// The geometry of the active output.
    pub fn active_output_geometry(&self) -> (r: Option<Rectangle>)
        requires
            self.wf(),
        ensures
            r == active_output(self),
    {
        match self.output {
            Some(o) => self.space.output_geometry(o),
            None => None,
        }
    }

    /// Moves the pointer to `p` and routes the motion (see `motion_outcome`).
    fn route_motion(&mut self, p: FixedPoint, time: u32) -> (effects: Vec<Effect>)
        requires
            old(self).wf(),
            pointer_in_bounds(p),
        ensures
            final(self).wf(),
            (final(self).space@.elements, effects@) == motion_outcome(old(self).space@.elements, old(self).grab, p, time),
            final(self).space@.outputs == old(self).space@.outputs,
            final(self).pointer_location == p,
            final(self).pressed_buttons@ == old(self).pressed_buttons@,
            final(self).grab == old(self).grab,
            final(self).keyboard_focus == old(self).keyboard_focus,
            final(self).redraw_state == old(self).redraw_state,
            final(self).output == old(self).output,
    {
        self.pointer_location = p;
        let mut effects: Vec<Effect> = Vec::new();
        match self.grab {
            Some(PointerGrab::Move(g)) => {
                effects.push(Effect::PointerMotion { focus: None, location: p, time });
                match self.space.window(g.window) {
                    Some(w) => {
                        let target = g.motion_target(p);
                        self.space.map_element(w, target, true);
                    },
                    None => {},
                }
            },
            Some(PointerGrab::Resize(g)) => {
                effects.push(Effect::PointerMotion { focus: None, location: p, time });
                match self.space.window(g.window) {
                    Some(w) => {
                        let r = g.motion_target(p);
                        let mut w2 = w;
                        w2.pending.size = Some(r.size);
                        self.space.map_element(w2, r.loc, true);
                        effects.push(Effect::SendPendingConfigure(g.window));
                    },
                    None => {},
                }
            },
            _ => {
                let focus = match self.space.element_under(p) {
                    Some((id, _)) => Some(id),
                    None => None,
                };
                effects.push(Effect::PointerMotion { focus, location: p, time });
            },
        }
        proof {
            let (_, sent) = motion_outcome(old(self).space@.elements, old(self).grab, p, time);
            assert(effects@ =~= sent);
        }
        effects
    }

    /// The window id under `p`, topmost first.
    fn under(&self, p: FixedPoint) -> (r: Option<u32>)
        requires
            self.wf(),
        ensures
            r == hit_id(self.space@.elements, p),
    {
        match self.space.element_under(p) {
            Some((id, _)) => Some(id),
            None => None,
        }
    }

    /// Relative pointer motion of `(dx, dy)` fixed-point units.
    pub fn pointer_motion(
        &mut self,
        dx: i64,
        dy: i64,
        dx_unaccel: i64,
        dy_unaccel: i64,
        time: u32,
        utime: u64,
    ) -> (effects: Vec<Effect>)
        requires
            old(self).wf(),
        ensures
            final(self).wf(),
            motion_post(old(self), final(self), effects@, dx, dy, dx_unaccel, dy_unaccel, time, utime),
    {
        let loc = self.pointer_location;
        let p = match self.active_output_geometry() {
            Some(r) => FixedPoint {
                x: clamp_i64(loc.x + clamp_i64(dx, -POINTER_LIMIT, POINTER_LIMIT), 0, r.size.w as i64 * FIXED_ONE),
                y: clamp_i64(loc.y + clamp_i64(dy, -POINTER_LIMIT, POINTER_LIMIT), 0, r.size.h as i64 * FIXED_ONE),
            },
            None => loc,
        };
        assert(p == relative_target(loc, dx, dy, active_output(old(self))));
        let focus = self.under(p);
        let mut effects = self.route_motion(p, time);
        effects.push(Effect::PointerRelativeMotion { focus, dx, dy, dx_unaccel, dy_unaccel, utime });
        let ghost before = effects@;
        if self.queue_redraw() {
            effects.push(Effect::ScheduleRedraw);
        }
        proof {
            let (_, scheduled) = old(self).redraw_state.queue_spec();
            assert(effects@ =~= before + scheduled_effect(scheduled));
            let (es, sent) = motion_outcome(old(self).space@.elements, old(self).grab, p, time);
            assert(final(self).space@.elements == es);
            assert(before == sent + seq![Effect::PointerRelativeMotion { focus: hit_id(old(self).space@.elements, p), dx, dy, dx_unaccel, dy_unaccel, utime }]);
        }
        effects
    }

    /// Absolute pointer motion to `(x, y)` fixed-point units from the
    /// active output's corner.
    pub fn pointer_motion_absolute(&mut self, x: i64, y: i64, time: u32) -> (effects: Vec<Effect>)
        requires
            old(self).wf(),
        ensures
            final(self).wf(),
            absolute_post(old(self), final(self), effects@, x, y, time),
    {
        let r = match self.active_output_geometry() {
            Some(r) => r,
            None => return Vec::new(),
        };
        let p = FixedPoint {
            x: r.loc.x as i64 * FIXED_ONE + clamp_i64(x, 0, r.size.w as i64 * FIXED_ONE),
            y: r.loc.y as i64 * FIXED_ONE + clamp_i64(y, 0, r.size.h as i64 * FIXED_ONE),
        };
        assert(p == absolute_target(x, y, r));
        let mut effects = self.route_motion(p, time);
        effects.push(Effect::PointerFrame);
        let ghost before = effects@;
        if self.queue_redraw() {
            effects.push(Effect::ScheduleRedraw);
        }
        proof {
            let (_, scheduled) = old(self).redraw_state.queue_spec();
            assert(effects@ =~= before + scheduled_effect(scheduled));
            let (es, sent) = motion_outcome(old(self).space@.elements, old(self).grab, p, time);
            assert(final(self).space@.elements == es);
            assert(before == sent + seq![Effect::PointerFrame]);
        }
        effects
    }
}

impl Twm {
    /// Appends one `SendPendingConfigure` per window, bottom first.
    fn push_configure_all(&self, effects: &mut Vec<Effect>)
        ensures
            final(effects)@ == old(effects)@ + configure_all(self.space@.elements),
    {
        let ids = self.space.window_ids();
        let ghost start = effects@;
        let ghost es = self.space@.elements;
        let mut i: usize = 0;
        while i < ids.len()
            invariant
                ids@ == es.map_values(|e: Element| e.window.id),
                i <= ids@.len(),
                effects@ == start + configure_all(es.subrange(0, i as int)),
            decreases ids.len() - i,
        {
            effects.push(Effect::SendPendingConfigure(ids[i]));
            i = i + 1;
            assert(configure_all(es.subrange(0, i as int)) =~= configure_all(es.subrange(0, i - 1)).push(
                Effect::SendPendingConfigure(es[i - 1].window.id),
            ));
            assert(effects@ =~= start + configure_all(es.subrange(0, i as int)));
        }
        assert(es.subrange(0, i as int) =~= es);
    }

    /// Records a press or release of `button` in the held set.
    fn update_buttons(&mut self, button: u32, pressed: bool)
        ensures
            final(self).pressed_buttons@ == buttons_after(old(self).pressed_buttons@, button, pressed),
            final(self).space@ == old(self).space@,
            final(self).pointer_location == old(self).pointer_location,
            final(self).grab == old(self).grab,
            final(self).keyboard_focus == old(self).keyboard_focus,
            final(self).redraw_state == old(self).redraw_state,
            final(self).output == old(self).output,
    {
        let ghost s = self.pressed_buttons@;
        let mut i: usize = 0;
        let mut kept: Vec<u32> = Vec::new();
        let mut found = false;
        while i < self.pressed_buttons.len()
            invariant
                s == self.pressed_buttons@,
                i <= s.len(),
                kept@ == without_button(s.subrange(0, i as int), button),
                found == (exists|k: int| 0 <= k < i && s[k] == button),
            decreases s.len() - i,
        {
            let b = self.pressed_buttons[i];
            assert(s.subrange(0, i + 1).drop_last() =~= s.subrange(0, i as int));
            assert(s.subrange(0, i + 1).last() == b);
            if b == button {
                found = true;
            } else {
                kept.push(b);
            }
            i = i + 1;
        }
        assert(s.subrange(0, i as int) =~= s);
        assert(found == s.contains(button));
        if pressed {
            if !found {
                self.pressed_buttons.push(button);
            }
        } else {
            self.pressed_buttons = kept;
        }
    }

    /// A pointer button was pressed or released (see `button_post`).
    pub fn pointer_button(&mut self, button: u32, pressed: bool, serial: u32, time: u32) -> (effects: Vec<Effect>)
        requires
            old(self).wf(),
        ensures
            final(self).wf(),
            button_post(old(self), final(self), effects@, button, pressed, serial, time),
    {
        let mut effects: Vec<Effect> = Vec::new();
        let p = self.pointer_location;
        let fresh = pressed && self.grab.is_none();
        let hit = self.space.element_under(p);
        let start = GrabStartData {
            serial,
            button,
            location: p,
            focus: match hit {
                Some((id, _)) => match self.space.window(id) {
                    Some(w) => Some(Focus { window: id, client: w.client }),
                    None => None,
                },
                None => None,
            },
        };
        proof {
            match top_hit(self.space@.elements, p) {
                Some(i) => {
                    crate::space::lemma_hit_is_topmost(self.space@.elements, p);
                    crate::space::lemma_find_at(self.space@.elements, i);
                },
                None => {},
            }
        }
        assert(start == press_start(self.space@.elements, p, serial, button));
        if fresh {
            match hit {
                Some((id, _)) => {
                    self.space.raise_element(id, true);
                    self.keyboard_focus = Some(id);
                    effects.push(Effect::SetKeyboardFocus(Some(id)));
                    self.push_configure_all(&mut effects);
                },
                None => {
                    self.space.deactivate_all();
                    self.push_configure_all(&mut effects);
                    self.keyboard_focus = None;
                    effects.push(Effect::SetKeyboardFocus(None));
                },
            }
        }
        let ghost eff1 = effects@;
        self.update_buttons(button, pressed);
        effects.push(Effect::PointerButton { button, pressed, serial, time });
        let ghost eff_button = effects@;
        let none_held = self.pressed_buttons.len() == 0;
        if fresh {
            self.grab = Some(PointerGrab::Implicit(start));
        } else if !pressed && none_held {
            match self.grab {
                Some(PointerGrab::Resize(g)) => {
                    match self.space.window(g.window) {
                        Some(w) => {
                            let mut w2 = w;
                            w2.pending.resizing = false;
                            self.space.update_window(w2);
                            effects.push(Effect::SendPendingConfigure(g.window));
                        },
                        None => {},
                    }
                },
                _ => {},
            }
            self.grab = None;
        }
        let ghost eff2 = effects@;
        effects.push(Effect::PointerFrame);
        proof {
            assert(eff_button =~= eff1 + seq![Effect::PointerButton { button, pressed, serial, time }]);
            assert(effects@ =~= eff2 + seq![Effect::PointerFrame]);
            let held = buttons_after(old(self).pressed_buttons@, button, pressed);
            let (es1, e1, f1) = if fresh {
                press_outcome(old(self).space@.elements, p)
            } else {
                (old(self).space@.elements, Seq::<Effect>::empty(), old(self).keyboard_focus)
            };
            assert(eff1 =~= e1);
            assert(final(self).keyboard_focus == f1);
            assert(final(self).pressed_buttons@ == held);
            assert(final(self).grab == grab_after_button(old(self).grab, pressed, held, start));
            let ended = resize_ended(old(self).grab, pressed, held);
            let (es2, e2) = match ended {
                Some(g) => match window_of(es1, g.window) {
                    Some(w) => (
                        window_updated(es1, g.window, with_pending(w, ToplevelState { resizing: false, ..w.pending })),
                        seq![Effect::SendPendingConfigure(g.window)],
                    ),
                    None => (es1, Seq::<Effect>::empty()),
                },
                None => (es1, Seq::<Effect>::empty()),
            };
            assert(final(self).space@.elements == es2);
            assert(eff2 =~= eff_button + e2);
        }
        effects
    }

    /// A scroll event: its axis frame is forwarded, then the frame closed.
    pub fn pointer_axis(&mut self, event: &AxisEvent) -> (effects: Vec<Effect>)
        ensures
            effects@ == seq![Effect::PointerAxis(frame_spec(*event)), Effect::PointerFrame],
            final(self).space@ == old(self).space@,
            final(self).keeps_input(old(self)),
    {
        vec![Effect::PointerAxis(axis_frame(event)), Effect::PointerFrame]
    }

    /// Dispatches one pointer event to its handler.
    pub fn process_input_event(&mut self, event: InputEvent) -> (effects: Vec<Effect>)
        requires
            old(self).wf(),
        ensures
            final(self).wf(),
            match event {
                InputEvent::PointerMotion { dx, dy, dx_unaccel, dy_unaccel, time, utime } => motion_post(
                    old(self),
                    final(self),
                    effects@,
                    dx,
                    dy,
                    dx_unaccel,
                    dy_unaccel,
                    time,
                    utime,
                ),
                InputEvent::PointerMotionAbsolute { x, y, time } => absolute_post(
                    old(self),
                    final(self),
                    effects@,
                    x,
                    y,
                    time,
                ),
                InputEvent::PointerButton { button, pressed, serial, time } => button_post(
                    old(self),
                    final(self),
                    effects@,
                    button,
                    pressed,
                    serial,
                    time,
                ),
                InputEvent::PointerAxis(e) => {
                    &&& effects@ == seq![Effect::PointerAxis(frame_spec(e)), Effect::PointerFrame]
                    &&& final(self).space@ == old(self).space@
                    &&& final(self).keeps_input(old(self))
                },
            },
    {
        match event {
            InputEvent::PointerMotion { dx, dy, dx_unaccel, dy_unaccel, time, utime } => self.pointer_motion(
                dx,
                dy,
                dx_unaccel,
                dy_unaccel,
                time,
                utime,
            ),
            InputEvent::PointerMotionAbsolute { x, y, time } => self.pointer_motion_absolute(x, y, time),
            InputEvent::PointerButton { button, pressed, serial, time } => self.pointer_button(
                button,
                pressed,
                serial,
                time,
            ),
            InputEvent::PointerAxis(e) => self.pointer_axis(&e),
        }
    }
}

/// The window holding keyboard focus, looked up in the stack.
pub open spec fn focused_window(t: &Twm) -> Option<Window> {
    match t.keyboard_focus {
        Some(f) => window_of(t.space@.elements, f),
        None => None,
    }
}

impl Twm {
    /// Carries out an intercepted key chord. Closing and toggling
    /// fullscreen act on the window with keyboard focus, if it is still
    /// mapped; toggling asks a fullscreen window to leave fullscreen and
    /// any other to go fullscreen on its own output.
    pub fn key_action(&mut self, action: KeyAction) -> (effects: Vec<Effect>)
        requires
            old(self).wf(),
        ensures
            final(self).wf(),
            final(self).keeps_input(old(self)),
            final(self).space@.outputs == old(self).space@.outputs,
            match action {
                KeyAction::Quit => effects@ == seq![Effect::Quit] && final(self).space@ == old(self).space@,
                KeyAction::Terminal => effects@ == seq![Effect::SpawnTerminal] && final(self).space@
                    == old(self).space@,
                KeyAction::SwitchVt(n) => effects@ == seq![Effect::SwitchVt(n)] && final(self).space@
                    == old(self).space@,
                KeyAction::CloseWindow => {
                    &&& final(self).space@ == old(self).space@
                    &&& effects@ == match focused_window(old(self)) {
                        Some(w) => seq![Effect::SendClose(w.id)],
                        None => Seq::<Effect>::empty(),
                    }
                },
                KeyAction::ToggleFullscreen => match focused_window(old(self)) {
                    Some(w) => if w.current.fullscreen {
                        &&& final(self).space@.elements == window_updated(
                            old(self).space@.elements,
                            w.id,
                            with_pending(w, unfullscreen_state(w.pending)),
                        )
                        &&& effects@ == seq![Effect::SendPendingConfigure(w.id)]
                    } else {
                        &&& final(self).space@.elements == (match fullscreen_target(old(self).space@, w.id, None) {
                            Some(g) => if w.can_fullscreen {
                                mapped(old(self).space@.elements, with_pending(w, fullscreen_state(w.pending, g.size)), g.loc, true)
                            } else {
                                old(self).space@.elements
                            },
                            None => old(self).space@.elements,
                        })
                        &&& effects@ == seq![Effect::SendConfigure(w.id)]
                    },
                    None => {
                        &&& final(self).space@ == old(self).space@
                        &&& effects@.len() == 0
                    },
                },
            },
    {
        let focused = match self.keyboard_focus {
            Some(f) => self.space.window(f),
            None => None,
        };
        proof {
            match focused {
                Some(w) => {
                    let f = old(self).keyboard_focus.unwrap();
                    let i = find(self.space@.elements, f).unwrap();
                    assert(self.space@.elements[i].window.id == f);
                },
                None => {},
            }
        }
        match action {
            KeyAction::Quit => vec![Effect::Quit],
            KeyAction::Terminal => vec![Effect::SpawnTerminal],
            KeyAction::SwitchVt(n) => vec![Effect::SwitchVt(n)],
            KeyAction::CloseWindow => match focused {
                Some(w) => vec![Effect::SendClose(w.id)],
                None => Vec::new(),
            },
            KeyAction::ToggleFullscreen => match focused {
                Some(w) => if w.current.fullscreen {
                    self.unfullscreen_request(w.id)
                } else {
                    self.fullscreen_request(w.id, None)
                },
                None => Vec::new(),
            },
        }
    }
}

} // verus!
