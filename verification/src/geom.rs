//! Axis-aligned boxes in fixed-point coordinates (hundredths of a pixel),
//! in two layouts: `Rect` keeps the lower-left corner, `SPRITE` the center.
//! `displacement` reports per-axis overlap magnitudes, the raw material of
//! collision resolution.

use vstd::prelude::*;

verus! {

/// Bound on every coordinate and size the games work with. One unit is a
/// hundredth of a pixel, so this allows a playfield about ten million
/// pixels across -- far beyond the 768x1280 window. Keeping all values
/// inside this bound makes every sum and difference below fit in `i64`
/// and every squared magnitude fit in `i128`.
pub const COORD_MAX: i64 = 0x100_0000_0000;

/// Positions may drift beyond `COORD_MAX` while collision resolution pushes
/// a box around, so they get twice the room.
pub const POS_MAX: i64 = 2 * COORD_MAX;

pub open spec fn in_coord(c: i64) -> bool {
    -COORD_MAX <= c <= COORD_MAX
}

/// The range every entity position is kept in.
pub open spec fn in_pos(c: i64) -> bool {
    -POS_MAX <= c <= POS_MAX
}

/// Saturation at the position range; the identity on everything the games
/// compute in ordinary play.
pub open spec fn clampp(v: int) -> i64 {
    if v < -POS_MAX {
        (-POS_MAX) as i64
    } else if v > POS_MAX {
        POS_MAX
    } else {
        v as i64
    }
}

#[derive(Clone, Copy, PartialEq, Eq, Structural, Debug)]
pub struct Vec2i {
    pub x: i64,
    pub y: i64,
}

impl Vec2i {
    pub open spec fn wf(self) -> bool {
        in_coord(self.x) && in_coord(self.y)
    }
}

/// A box given by its lower-left corner and its extent.
#[derive(Clone, Copy, PartialEq, Eq, Structural, Debug)]
pub struct Rect {
    pub corner: Vec2i,
    pub size: Vec2i,
}

/// A box given by its center and its extent.
#[derive(Clone, Copy, PartialEq, Eq, Structural, Debug)]
pub struct SPRITE {
    pub center: Vec2i,
    pub size: Vec2i,
}

/// Halving as the conversions compute it, rounding toward zero.
pub open spec fn half_trunc(a: int) -> int {
    if a >= 0 {
        a / 2
    } else {
        -((-a) / 2)
    }
}

/// Division rounding toward zero, as the fixed-point scaling computes
/// it.
pub open spec fn div_trunc(a: int, d: int) -> int
    recommends
        d > 0,
{
    if a >= 0 {
        a / d
    } else {
        -((-a) / d)
    }
}

/// Saturation at the `i64` range; the identity on everything the games
/// compute.
pub open spec fn clampw(v: int) -> i64 {
    if v < i64::MIN {
        i64::MIN
    } else if v > i64::MAX {
        i64::MAX
    } else {
        v as i64
    }
}

impl Rect {
    /// A corner-form box is well formed when its extent is a nonnegative
    /// coordinate and its corner lies within four times the coordinate
    /// bound: the corner form of a box whose center is anywhere in the
    /// position range can stick out by half an extent.
    pub open spec fn wf(self) -> bool {
        &&& -4 * COORD_MAX <= self.corner.x <= 4 * COORD_MAX
        &&& -4 * COORD_MAX <= self.corner.y <= 4 * COORD_MAX
        &&& 0 <= self.size.x <= COORD_MAX
        &&& 0 <= self.size.y <= COORD_MAX
    }

    pub open spec fn left(self) -> int {
        self.corner.x as int
    }

    pub open spec fn right(self) -> int {
        self.corner.x + self.size.x
    }

    pub open spec fn bottom(self) -> int {
        self.corner.y as int
    }

    pub open spec fn top(self) -> int {
        self.corner.y + self.size.y
    }

    /// How deep two boxes interpenetrate along x: the overlap of the two
    /// x-intervals, negative when they are apart.
    pub open spec fn x_overlap(self, other: Rect) -> int {
        min_int(self.right(), other.right()) - max_int(self.left(), other.left())
    }

    pub open spec fn y_overlap(self, other: Rect) -> int {
        min_int(self.top(), other.top()) - max_int(self.bottom(), other.bottom())
    }

    /// Both axis overlaps are nonnegative: the boxes touch or interpenetrate.
    pub open spec fn touches(self, other: Rect) -> bool {
        self.x_overlap(other) >= 0 && self.y_overlap(other) >= 0
    }

    /// The center-based view of this box: center = corner + size / 2.
    pub open spec fn as_sprite(self) -> SPRITE {
        SPRITE {
            center: Vec2i {
                x: clampw(self.corner.x + half_trunc(self.size.x as int)),
                y: clampw(self.corner.y + half_trunc(self.size.y as int)),
            },
            size: self.size,
        }
    }

    /// Per-axis overlap magnitudes when the boxes touch, `None` when apart.
    pub fn displacement(&self, other: Rect) -> (r: Option<Vec2i>)
        requires
            self.wf(),
            other.wf(),
        ensures
            self.touches(other) ==> (r matches Some(d) && d.x == self.x_overlap(other) && d.y
                == self.y_overlap(other)),
            !self.touches(other) ==> r is None,
    {
        let self_right = self.corner.x + self.size.x;
        let other_right = other.corner.x + other.size.x;
        let x_overlap = min_i64(self_right, other_right) - max_i64(self.corner.x, other.corner.x);
        let self_top = self.corner.y + self.size.y;
        let other_top = other.corner.y + other.size.y;
        let y_overlap = min_i64(self_top, other_top) - max_i64(self.corner.y, other.corner.y);
        if x_overlap >= 0 && y_overlap >= 0 {
            Some(Vec2i { x: x_overlap, y: y_overlap })
        } else {
            None
        }
    }
}

impl SPRITE {
    pub open spec fn wf(self) -> bool {
        &&& in_pos(self.center.x)
        &&& in_pos(self.center.y)
        &&& 0 <= self.size.x <= COORD_MAX
        &&& 0 <= self.size.y <= COORD_MAX
    }

    /// The corner-based view of this box: corner = center - size / 2.
    pub open spec fn as_rect(self) -> Rect {
        Rect {
            corner: Vec2i {
                x: clampw(self.center.x - half_trunc(self.size.x as int)),
                y: clampw(self.center.y - half_trunc(self.size.y as int)),
            },
            size: self.size,
        }
    }

    pub open spec fn touches(self, other: SPRITE) -> bool {
        self.as_rect().touches(other.as_rect())
    }

    pub open spec fn x_overlap(self, other: SPRITE) -> int {
        self.as_rect().x_overlap(other.as_rect())
    }

    pub open spec fn y_overlap(self, other: SPRITE) -> int {
        self.as_rect().y_overlap(other.as_rect())
    }

    pub fn displacement(&self, other: SPRITE) -> (r: Option<Vec2i>)
        requires
            self.wf(),
            other.wf(),
        ensures
            self.touches(other) ==> (r matches Some(d) && d.x == self.x_overlap(other) && d.y
                == self.y_overlap(other)),
            !self.touches(other) ==> r is None,
    {
        Rect::from(*self).displacement(Rect::from(other))
    }
}

impl From<SPRITE> for Rect {
    fn from(val: SPRITE) -> (r: Rect)
    {
        Rect {
            corner: Vec2i {
                x: clamp_wide(val.center.x as i128 - half_i64(val.size.x) as i128),
                y: clamp_wide(val.center.y as i128 - half_i64(val.size.y) as i128),
            },
            size: val.size,
        }
    }
}

impl vstd::std_specs::convert::FromSpecImpl<SPRITE> for Rect {
    open spec fn obeys_from_spec() -> bool {
        true
    }

    open spec fn from_spec(val: SPRITE) -> Rect {
        val.as_rect()
    }
}

impl From<Rect> for SPRITE {
    fn from(val: Rect) -> (r: SPRITE)
    {
        SPRITE {
            center: Vec2i {
                x: clamp_wide(val.corner.x as i128 + half_i64(val.size.x) as i128),
                y: clamp_wide(val.corner.y as i128 + half_i64(val.size.y) as i128),
            },
            size: val.size,
        }
    }
}

impl vstd::std_specs::convert::FromSpecImpl<Rect> for SPRITE {
    open spec fn obeys_from_spec() -> bool {
        true
    }

    open spec fn from_spec(val: Rect) -> SPRITE {
        val.as_sprite()
    }
}

pub open spec fn min_int(a: int, b: int) -> int {
    if a <= b {
        a
    } else {
        b
    }
}

pub open spec fn max_int(a: int, b: int) -> int {
    if a >= b {
        a
    } else {
        b
    }
}

/// Narrows a wide intermediate back to a coordinate, saturating at the
/// `i64` range.
pub fn clamp_wide(v: i128) -> (r: i64)
    ensures
        r == clampw(v as int),
{
    if v > i64::MAX as i128 {
        i64::MAX
    } else if v < i64::MIN as i128 {
        i64::MIN
    } else {
        v as i64
    }
}

/// Narrows a wide intermediate to the position range, saturating at its
/// ends.
pub fn clamp_pos(v: i128) -> (r: i64)
    ensures
        r == clampp(v as int),
        in_pos(r),
{
    if v > POS_MAX as i128 {
        POS_MAX
    } else if v < -POS_MAX as i128 {
        -POS_MAX
    } else {
        v as i64
    }
}

/// Halves a value, rounding toward zero.
pub fn half_i64(v: i64) -> (r: i64)
    ensures
        r as int == half_trunc(v as int),
{
    if v >= 0 {
        v / 2
    } else {
        let n: i128 = -(v as i128);
        clamp_wide(-(n / 2))
    }
}

pub fn min_i64(a: i64, b: i64) -> (r: i64)
    ensures
        r == min_int(a as int, b as int),
{
    if a <= b {
        a
    } else {
        b
    }
}

pub fn max_i64(a: i64, b: i64) -> (r: i64)
    ensures
        r == max_int(a as int, b as int),
{
    if a >= b {
        a
    } else {
        b
    }
}

} // verus!

