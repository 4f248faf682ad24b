//! Scroll events: the two ways devices report an amount (a continuous value,
//! or wheel clicks in 120ths of a notch) folded into one axis frame.
use vstd::prelude::*;

verus! {

#[derive(Clone, Copy, Debug, PartialEq, Eq, Structural)]
pub enum AxisSource {
    Wheel,
    Finger,
    Continuous,
    WheelTilt,
}

/// One scroll event as the device reports it. Continuous amounts are in
/// fixed point (see `FIXED_ONE`); discrete ones in 120ths of a wheel notch.
#[derive(Clone, Copy, Debug, PartialEq, Eq, Structural)]
pub struct AxisEvent {
    pub source: AxisSource,
    pub time: u32,
    pub horizontal: Option<i64>,
    pub vertical: Option<i64>,
    pub horizontal_v120: Option<i32>,
    pub vertical_v120: Option<i32>,
}

/// What is sent to the client for one scroll event. A `None` value means the
/// axis carries no motion in this frame.
#[derive(Clone, Copy, Debug, PartialEq, Eq, Structural)]
pub struct AxisFrame {
    pub source: AxisSource,
    pub time: u32,
    pub horizontal: Option<i64>,
    pub vertical: Option<i64>,
    pub horizontal_v120: Option<i32>,
    pub vertical_v120: Option<i32>,
    pub stop_horizontal: bool,
    pub stop_vertical: bool,
}

/// Fixed-point scroll distance of one 120th of a notch: a notch scrolls
/// 15 logical pixels, and 15 / 120 of `FIXED_ONE` is 32.
pub const V120_STEP: i64 = 32;

/// The amount scrolled on one axis: the continuous value when it is non-zero,
/// else the discrete one scaled to pixels, else nothing.
pub open spec fn axis_amount(continuous: Option<i64>, v120: Option<i32>) -> int {
    match continuous {
        Some(c) if c != 0 => c as int,
        _ => match v120 {
            Some(d) => d as int * V120_STEP,
            None => 0,
        },
    }
}

/// Finger sources do not stop by themselves: a reported amount of zero on a
/// finger source ends the scroll on that axis.
pub open spec fn axis_stops(source: AxisSource, continuous: Option<i64>, v120: Option<i32>) -> bool {
    source == AxisSource::Finger && continuous is Some && axis_amount(continuous, v120) == 0
}

pub open spec fn frame_spec(e: AxisEvent) -> AxisFrame {
    let h = axis_amount(e.horizontal, e.horizontal_v120);
    let v = axis_amount(e.vertical, e.vertical_v120);
    AxisFrame {
        source: e.source,
        time: e.time,
        horizontal: if h != 0 { Some(h as i64) } else { None },
        vertical: if v != 0 { Some(v as i64) } else { None },
        horizontal_v120: if h != 0 { e.horizontal_v120 } else { None },
        vertical_v120: if v != 0 { e.vertical_v120 } else { None },
        stop_horizontal: axis_stops(e.source, e.horizontal, e.horizontal_v120),
        stop_vertical: axis_stops(e.source, e.vertical, e.vertical_v120),
    }
}

fn amount(continuous: Option<i64>, v120: Option<i32>) -> (r: i64)
    ensures
        r == axis_amount(continuous, v120),
{
    match continuous {
        Some(c) if c != 0 => c,
        _ => match v120 {
            Some(d) => d as i64 * V120_STEP,
            None => 0,
        },
    }
}

/// Builds the axis frame of one scroll event: each axis with a non-zero
/// amount carries it (and its discrete count, when reported), and a finger
/// source reporting zero gets an explicit stop on that axis.
pub fn axis_frame(e: &AxisEvent) -> (r: AxisFrame)
    ensures
        r == frame_spec(*e),
{
    let h = amount(e.horizontal, e.horizontal_v120);
    let v = amount(e.vertical, e.vertical_v120);
    let finger = match e.source {
        AxisSource::Finger => true,
        _ => false,
    };
    AxisFrame {
        source: e.source,
        time: e.time,
        horizontal: if h != 0 { Some(h) } else { None },
        vertical: if v != 0 { Some(v) } else { None },
        horizontal_v120: if h != 0 { e.horizontal_v120 } else { None },
        vertical_v120: if v != 0 { e.vertical_v120 } else { None },
        stop_horizontal: finger && e.horizontal.is_some() && h == 0,
        stop_vertical: finger && e.vertical.is_some() && v == 0,
    }
}

} // verus!
