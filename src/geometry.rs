//! Integer geometry in the global logical coordinate space.
//!
//! Window and output positions are whole logical pixels. The pointer moves in
//! sub-pixel steps, so its position is kept in fixed point: one logical pixel
//! is `FIXED_ONE` units.
use vstd::prelude::*;

verus! {

/// Fixed-point units in one logical pixel (the wire format's 24.8 layout).
pub const FIXED_ONE: i64 = 256;

/// A point in whole logical pixels.
#[derive(Clone, Copy, Debug, PartialEq, Eq, Structural)]
pub struct Point {
    pub x: i32,
    pub y: i32,
}

/// A width and a height in logical pixels.
#[derive(Clone, Copy, Debug, PartialEq, Eq, Structural)]
pub struct Size {
    pub w: i32,
    pub h: i32,
}

/// An axis-aligned rectangle: `loc` is its top-left corner.
#[derive(Clone, Copy, Debug, PartialEq, Eq, Structural)]
pub struct Rectangle {
    pub loc: Point,
    pub size: Size,
}

/// A pointer position in fixed point (see `FIXED_ONE`).
#[derive(Clone, Copy, Debug, PartialEq, Eq, Structural)]
pub struct FixedPoint {
    pub x: i64,
    pub y: i64,
}

impl Size {
    pub open spec fn valid(self) -> bool {
        self.w >= 0 && self.h >= 0
    }
}

impl Rectangle {
    pub open spec fn valid(self) -> bool {
        self.size.valid()
    }

    /// The half-open rectangle `[loc, loc + size)` holds the fixed-point `p`.
    pub open spec fn holds(self, p: FixedPoint) -> bool {
        &&& self.loc.x * FIXED_ONE <= p.x < (self.loc.x + self.size.w) * FIXED_ONE
        &&& self.loc.y * FIXED_ONE <= p.y < (self.loc.y + self.size.h) * FIXED_ONE
    }

    /// The two rectangles share an area of positive size.
    pub open spec fn meets(self, o: Rectangle) -> bool {
        &&& self.loc.x < o.loc.x + o.size.w
        &&& o.loc.x < self.loc.x + self.size.w
        &&& self.loc.y < o.loc.y + o.size.h
        &&& o.loc.y < self.loc.y + self.size.h
    }

    pub fn new(loc: Point, size: Size) -> (r: Rectangle)
        ensures
            r.loc == loc,
            r.size == size,
    {
        Rectangle { loc, size }
    }

    /// Whether the pointer position `p` lies inside this rectangle.
    pub fn contains(&self, p: FixedPoint) -> (r: bool)
        ensures
            r == self.holds(p),
    {
        let x0 = self.loc.x as i64 * FIXED_ONE;
        let x1 = (self.loc.x as i64 + self.size.w as i64) * FIXED_ONE;
        let y0 = self.loc.y as i64 * FIXED_ONE;
        let y1 = (self.loc.y as i64 + self.size.h as i64) * FIXED_ONE;
        x0 <= p.x && p.x < x1 && y0 <= p.y && p.y < y1
    }

    /// Whether the two rectangles overlap in an area of positive size.
    pub fn overlaps(&self, o: &Rectangle) -> (r: bool)
        ensures
            r == self.meets(*o),
    {
        (self.loc.x as i64) < o.loc.x as i64 + o.size.w as i64
            && (o.loc.x as i64) < self.loc.x as i64 + self.size.w as i64
            && (self.loc.y as i64) < o.loc.y as i64 + o.size.h as i64
            && (o.loc.y as i64) < self.loc.y as i64 + self.size.h as i64
    }
}

/// `v` limited to the closed range `[lo, hi]`.
pub open spec fn clamp_spec(v: int, lo: int, hi: int) -> int {
    if v < lo {
        lo
    } else if v > hi {
        hi
    } else {
        v
    }
}

/// `v` limited to the closed range `[lo, hi]`.
pub fn clamp_i64(v: i64, lo: i64, hi: i64) -> (r: i64)
    requires
        lo <= hi,
    ensures
        r == clamp_spec(v as int, lo as int, hi as int),
{
    if v < lo {
        lo
    } else if v > hi {
        hi
    } else {
        v
    }
}

/// A fixed-point value rounded to the nearest whole pixel, halves away from zero.
pub open spec fn round_fixed(v: int) -> int {
    let one = FIXED_ONE as int;
    if v >= 0 {
        (v + one / 2) / one
    } else {
        -((-v + one / 2) / one)
    }
}

/// Rounds a fixed-point value to the nearest whole pixel, halves away from zero.
pub fn round_fixed_exec(v: i64) -> (r: i64)
    requires
        -0x7fff_ffff_ffff_0000 <= v <= 0x7fff_ffff_ffff_0000,
    ensures
        r == round_fixed(v as int),
        -0x0080_0000_0000_0000 <= r <= 0x0080_0000_0000_0000,
{
    if v >= 0 {
        (v + FIXED_ONE / 2) / FIXED_ONE
    } else {
        -((-v + FIXED_ONE / 2) / FIXED_ONE)
    }
}

} // verus!
