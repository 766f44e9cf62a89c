//! The one logical coordinate space, and the zone tests made in it.
//!
//! Raw pixel measurements from the window system are normalized by the
//! display's scale factor before any zone test; mixing raw and normalized
//! units would put every zone boundary off by the scale factor on
//! high-density displays, so the conversions live here and everything else
//! speaks logical units only.

use vstd::prelude::*;

verus! {

/// A point in logical (scale-normalized) coordinates.
#[derive(Clone, Copy, PartialEq, Eq, Debug)]
pub struct LogicalPoint {
    pub x: i32,
    pub y: i32,
}

/// A size in logical coordinates.
#[derive(Clone, Copy, PartialEq, Eq, Debug)]
pub struct LogicalSize {
    pub width: i32,
    pub height: i32,
}

/// An axis-aligned rectangle in logical coordinates, `(x, y)` its top-left
/// corner.
#[derive(Clone, Copy, PartialEq, Eq, Debug)]
pub struct LogicalRect {
    pub x: i32,
    pub y: i32,
    pub width: i32,
    pub height: i32,
}

/// A rectangle in raw pixel coordinates, as the window system reports it.
#[derive(Clone, Copy, PartialEq, Eq, Debug)]
pub struct PhysicalRect {
    pub x: u32,
    pub y: u32,
    pub width: u32,
    pub height: u32,
}

/// The geometry a surface should take: its size, and the position of its
/// top-left corner, both in logical units.
#[derive(Clone, Copy, PartialEq, Eq, Debug)]
pub struct GeometryPlan {
    pub size: LogicalSize,
    pub position: LogicalPoint,
}

/// The hover region near the top edge of the screen: centered horizontally,
/// reaching `half_width` to each side and `height` down from the edge.
#[derive(Clone, Copy, PartialEq, Eq, Debug)]
pub struct TriggerZone {
    pub half_width: i32,
    pub height: i32,
}

/// One raw pixel measurement expressed in logical units.
pub open spec fn logical_of(px: u32, scale: u32) -> int {
    px as int / scale as int
}

/// Convert one raw pixel measurement to logical units by the display's scale
/// factor.
pub fn px_to_logical(px: u32, scale: u32) -> (r: u32)
    requires
        1 <= scale,
    ensures
        r == logical_of(px, scale),
{
    px / scale
}

/// Convert a whole rectangle from raw pixels to logical units, every side by
/// the same scale factor.
pub fn rect_to_logical(r: &PhysicalRect, scale: u32) -> (l: LogicalRect)
    requires
        1 <= scale,
        r.x <= i32::MAX,
        r.y <= i32::MAX,
        r.width <= i32::MAX,
        r.height <= i32::MAX,
    ensures
        l.x == logical_of(r.x, scale),
        l.y == logical_of(r.y, scale),
        l.width == logical_of(r.width, scale),
        l.height == logical_of(r.height, scale),
{
    proof {
        lemma_u32_div_le(r.x, scale);
        lemma_u32_div_le(r.y, scale);
        lemma_u32_div_le(r.width, scale);
        lemma_u32_div_le(r.height, scale);
    }
    LogicalRect {
        x: (r.x / scale) as i32,
        y: (r.y / scale) as i32,
        width: (r.width / scale) as i32,
        height: (r.height / scale) as i32,
    }
}

/// Dividing by a positive scale never grows a measurement.
proof fn lemma_u32_div_le(px: u32, scale: u32)
    requires
        1 <= scale,
    ensures
        0 <= px as int / scale as int <= px,
{
    assert(0 <= px as int / scale as int <= px) by (nonlinear_arith)
        requires 1 <= scale
    ;
}

impl LogicalRect {
    /// `p` lies within the rectangle, edges included.
    pub open spec fn contains_spec(self, p: LogicalPoint) -> bool {
        &&& self.x <= p.x <= self.x + self.width
        &&& self.y <= p.y <= self.y + self.height
    }

    /// `p` lies within the rectangle grown by `margin` on every side.
    pub open spec fn contains_with_margin_spec(self, margin: i32, p: LogicalPoint) -> bool {
        &&& self.x - margin <= p.x <= self.x + self.width + margin
        &&& self.y - margin <= p.y <= self.y + self.height + margin
    }

    /// Whether `p` lies within the rectangle, edges included.
    pub fn contains(&self, p: LogicalPoint) -> (b: bool)
        ensures
            b == self.contains_spec(p),
    {
        let x = p.x as i64;
        let y = p.y as i64;
        (self.x as i64) <= x && x <= (self.x as i64) + (self.width as i64)
            && (self.y as i64) <= y && y <= (self.y as i64) + (self.height as i64)
    }

    /// Whether `p` lies within the rectangle grown by `margin` on every side.
    pub fn contains_with_margin(&self, margin: i32, p: LogicalPoint) -> (b: bool)
        ensures
            b == self.contains_with_margin_spec(margin, p),
    {
        let x = p.x as i64;
        let y = p.y as i64;
        let m = margin as i64;
        (self.x as i64) - m <= x && x <= (self.x as i64) + (self.width as i64) + m
            && (self.y as i64) - m <= y && y <= (self.y as i64) + (self.height as i64) + m
    }
}

/// The horizontal center of a screen `screen_width` logical units wide.
pub open spec fn center_of(screen_width: i32) -> int {
    screen_width as int / 2
}

impl TriggerZone {
    /// `p` lies in the zone: within `half_width` of the screen's horizontal
    /// center, no lower than `height` below the top edge.
    pub open spec fn hit_spec(self, screen_width: i32, p: LogicalPoint) -> bool {
        &&& center_of(screen_width) - self.half_width <= p.x
        &&& p.x <= center_of(screen_width) + self.half_width
        &&& p.y <= self.height
    }

    /// Whether `p` lies in the zone on a screen `screen_width` units wide.
    pub fn hit(&self, screen_width: i32, p: LogicalPoint) -> (b: bool)
        requires
            0 <= screen_width,
        ensures
            b == self.hit_spec(screen_width, p),
    {
        let center = ((screen_width as u32) / 2) as i64;
        let x = p.x as i64;
        center - (self.half_width as i64) <= x
            && x <= center + (self.half_width as i64)
            && (p.y as i64) <= (self.height as i64)
    }
}

/// The x position that centers a surface of the given width on the screen; a
/// surface wider than the screen is pinned to the left edge.
pub open spec fn centered_x(screen_width: i32, width: i32) -> int {
    if width <= screen_width {
        (screen_width - width) as int / 2
    } else {
        0
    }
}

/// The x position that centers a surface of the given width on the screen.
pub fn centered_position(screen_width: i32, width: i32) -> (x: i32)
    requires
        0 <= screen_width,
        0 <= width,
    ensures
        x == centered_x(screen_width, width),
        0 <= x,
{
    if width <= screen_width {
        (((screen_width as u32) - (width as u32)) / 2) as i32
    } else {
        0
    }
}

/// `v` clamped into `[lo, hi]`.
pub open spec fn clamped(v: i32, lo: i32, hi: i32) -> i32 {
    if v < lo {
        lo
    } else if v > hi {
        hi
    } else {
        v
    }
}

/// Clamp `v` into `[lo, hi]`.
pub fn clamp(v: i32, lo: i32, hi: i32) -> (r: i32)
    requires
        lo <= hi,
    ensures
        r == clamped(v, lo, hi),
        lo <= r <= hi,
{
    if v < lo {
        lo
    } else if v > hi {
        hi
    } else {
        v
    }
}

} // verus!
