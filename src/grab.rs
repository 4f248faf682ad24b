//! The pointer grab state machine: the implicit grab a button press starts,
//! and the interactive move and resize grabs a client may ask for while it
//! holds one.
use vstd::prelude::*;
use crate::geometry::{clamp_spec, clamp_i64, round_fixed, round_fixed_exec, FixedPoint, Point, Rectangle, Size, FIXED_ONE};

verus! {

/// Pointer positions stay within this many fixed-point units of the origin.
pub const POINTER_LIMIT: i64 = 0x100_0000_0000;

/// Smallest width or height a resize leaves a window with.
pub const MIN_WINDOW_SIZE: i32 = 1;

/// A window and the client owning it, as the pointer saw it.
#[derive(Clone, Copy, Debug, PartialEq, Eq, Structural)]
pub struct Focus {
    pub window: u32,
    pub client: u32,
}

/// How a grab began: the button press, its serial, where the pointer was,
/// and the window under it.
#[derive(Clone, Copy, Debug, PartialEq, Eq, Structural)]
pub struct GrabStartData {
    pub serial: u32,
    pub button: u32,
    pub location: FixedPoint,
    pub focus: Option<Focus>,
}

/// An interactive move: the window follows the pointer.
#[derive(Clone, Copy, Debug, PartialEq, Eq, Structural)]
pub struct MoveSurfaceGrab {
    pub start_data: GrabStartData,
    pub window: u32,
    pub initial_window_location: Point,
}

/// The edges a resize drags.
#[derive(Clone, Copy, Debug, PartialEq, Eq, Structural)]
pub struct ResizeEdges {
    pub top: bool,
    pub bottom: bool,
    pub left: bool,
    pub right: bool,
}

/// An interactive resize: the dragged edges follow the pointer.
#[derive(Clone, Copy, Debug, PartialEq, Eq, Structural)]
pub struct ResizeSurfaceGrab {
    pub start_data: GrabStartData,
    pub window: u32,
    pub edges: ResizeEdges,
    pub initial_window_rect: Rectangle,
}

/// The grab in force, if any.
#[derive(Clone, Copy, Debug, PartialEq, Eq, Structural)]
pub enum PointerGrab {
    /// Started by a button press; ends when no button is pressed.
    Implicit(GrabStartData),
    Move(MoveSurfaceGrab),
    Resize(ResizeSurfaceGrab),
}

pub open spec fn pointer_in_bounds(p: FixedPoint) -> bool {
    -POINTER_LIMIT <= p.x <= POINTER_LIMIT && -POINTER_LIMIT <= p.y <= POINTER_LIMIT
}

impl PointerGrab {
    pub open spec fn start(self) -> GrabStartData {
        match self {
            PointerGrab::Implicit(s) => s,
            PointerGrab::Move(g) => g.start_data,
            PointerGrab::Resize(g) => g.start_data,
        }
    }

    pub open spec fn wf(self) -> bool {
        &&& pointer_in_bounds(self.start().location)
        &&& self matches PointerGrab::Resize(g) ==> g.initial_window_rect.valid()
    }

    /// Whether the grab moves or resizes a window, and so keeps pointer
    /// focus from every client.
    pub open spec fn is_interactive(self) -> bool {
        !(self is Implicit)
    }
}

/// The start data of the implicit grab that a move or resize request of
/// `client` with `serial` may take over: the grab in force must be the
/// implicit one, started with that serial, over a window of that client.
pub open spec fn grab_for_request(grab: Option<PointerGrab>, client: u32, serial: u32) -> Option<GrabStartData> {
    match grab {
        Some(PointerGrab::Implicit(s)) => if s.serial == serial && (s.focus matches Some(f) && f.client == client) {
            Some(s)
        } else {
            None
        },
        _ => None,
    }
}

/// Checks a move or resize request against the grab in force.
pub fn check_grab(grab: &Option<PointerGrab>, client: u32, serial: u32) -> (r: Option<GrabStartData>)
    ensures
        r == grab_for_request(*grab, client, serial),
{
    match grab {
        Some(PointerGrab::Implicit(s)) => {
            if s.serial != serial {
                return None;
            }
            match s.focus {
                Some(f) => if f.client == client {
                    Some(*s)
                } else {
                    None
                },
                None => None,
            }
        },
        _ => None,
    }
}

/// A pixel offset limited to the range of `i32`.
pub open spec fn saturate(v: int) -> int {
    clamp_spec(v, i32::MIN as int, i32::MAX as int)
}

/// `v` limited to the range of `i32`.
pub fn saturate_exec(v: i64) -> (r: i32)
    ensures
        r == saturate(v as int),
{
    clamp_i64(v, i32::MIN as i64, i32::MAX as i64) as i32
}

/// Where a moved window goes when the pointer is at `p`: its location at
/// grab start plus the pointer's travel since then, the sum rounded to the
/// nearest pixel (halves away from zero).
pub open spec fn move_target(g: MoveSurfaceGrab, p: FixedPoint) -> Point {
    Point {
        x: saturate(round_fixed(g.initial_window_location.x * FIXED_ONE + (p.x - g.start_data.location.x))) as i32,
        y: saturate(round_fixed(g.initial_window_location.y * FIXED_ONE + (p.y - g.start_data.location.y))) as i32,
    }
}

/// Rounding a whole number of pixels in fixed point gives that number.
pub proof fn lemma_round_whole(m: int)
    ensures
        round_fixed(m * FIXED_ONE) == m,
{
    let one = FIXED_ONE as int;
    if m >= 0 {
        assert((m * one + one / 2) / one == m) by (nonlinear_arith)
            requires
                one == 256,
                m >= 0,
        ;
    } else {
        assert((-(m * one) + one / 2) / one == -m) by (nonlinear_arith)
            requires
                one == 256,
                m < 0,
        ;
    }
}

/// One side of a resize: the new length of a window side of length `len`
/// when the pointer travelled `d` pixels, growing with `d` on the far edge
/// and shrinking with it on the near edge, never below the minimum.
pub open spec fn resized_len(len: int, d: int, near: bool, far: bool) -> int {
    let raw = if far {
        len + d
    } else if near {
        len - d
    } else {
        len
    };
    if near || far {
        clamp_spec(raw, MIN_WINDOW_SIZE as int, i32::MAX as int)
    } else {
        len
    }
}

/// The window rectangle of a resize when the pointer is at `p`. A dragged
/// near edge (top or left) moves so that the opposite edge stays put.
pub open spec fn resize_target(g: ResizeSurfaceGrab, p: FixedPoint) -> Rectangle {
    let r = g.initial_window_rect;
    let w = resized_len(r.size.w as int, round_fixed(p.x - g.start_data.location.x), g.edges.left, g.edges.right);
    let h = resized_len(r.size.h as int, round_fixed(p.y - g.start_data.location.y), g.edges.top, g.edges.bottom);
    Rectangle {
        loc: Point {
            x: if g.edges.left && !g.edges.right {
                saturate(r.loc.x + r.size.w - w) as i32
            } else {
                r.loc.x
            },
            y: if g.edges.top && !g.edges.bottom {
                saturate(r.loc.y + r.size.h - h) as i32
            } else {
                r.loc.y
            },
        },
        size: Size { w: w as i32, h: h as i32 },
    }
}

impl ResizeEdges {
    /// The edges of the protocol's resize-edge value: top 1, bottom 2,
    /// left 4, right 8, corners the sums of two.
    pub fn from_bits(bits: u32) -> (r: ResizeEdges)
        ensures
            r.top == (bits & 1 != 0),
            r.bottom == (bits & 2 != 0),
            r.left == (bits & 4 != 0),
            r.right == (bits & 8 != 0),
    {
        ResizeEdges { top: bits & 1 != 0, bottom: bits & 2 != 0, left: bits & 4 != 0, right: bits & 8 != 0 }
    }
}

impl MoveSurfaceGrab {
    /// Where the grabbed window goes when the pointer is at `p`.
    pub fn motion_target(&self, p: FixedPoint) -> (r: Point)
        requires
            pointer_in_bounds(p),
            pointer_in_bounds(self.start_data.location),
        ensures
            r == move_target(*self, p),
    {
        let x = round_fixed_exec(self.initial_window_location.x as i64 * FIXED_ONE + (p.x - self.start_data.location.x));
        let y = round_fixed_exec(self.initial_window_location.y as i64 * FIXED_ONE + (p.y - self.start_data.location.y));
        Point { x: saturate_exec(x), y: saturate_exec(y) }
    }
}

fn resized_len_exec(len: i32, d: i64, near: bool, far: bool) -> (r: i32)
    requires
        len >= 0,
        -0x1_0000_0000_0000 <= d <= 0x1_0000_0000_0000,
    ensures
        r == resized_len(len as int, d as int, near, far),
        r >= 0,
{
    let raw = if far {
        len as i64 + d
    } else if near {
        len as i64 - d
    } else {
        len as i64
    };
    if near || far {
        clamp_i64(raw, MIN_WINDOW_SIZE as i64, i32::MAX as i64) as i32
    } else {
        len
    }
}

impl ResizeSurfaceGrab {
    /// The grabbed window's rectangle when the pointer is at `p`.
    pub fn motion_target(&self, p: FixedPoint) -> (r: Rectangle)
        requires
            pointer_in_bounds(p),
            pointer_in_bounds(self.start_data.location),
            self.initial_window_rect.valid(),
        ensures
            r == resize_target(*self, p),
            r.valid(),
    {
        let rect = self.initial_window_rect;
        let dx = round_fixed_exec(p.x - self.start_data.location.x);
        let dy = round_fixed_exec(p.y - self.start_data.location.y);
        let w = resized_len_exec(rect.size.w, dx, self.edges.left, self.edges.right);
        let h = resized_len_exec(rect.size.h, dy, self.edges.top, self.edges.bottom);
        let x = if self.edges.left && !self.edges.right {
            saturate_exec(rect.loc.x as i64 + rect.size.w as i64 - w as i64)
        } else {
            rect.loc.x
        };
        let y = if self.edges.top && !self.edges.bottom {
            saturate_exec(rect.loc.y as i64 + rect.size.h as i64 - h as i64)
        } else {
            rect.loc.y
        };
        Rectangle { loc: Point { x, y }, size: Size { w, h } }
    }
}

} // verus!
