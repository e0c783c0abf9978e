//! The plain values handed to the renderer: per-sprite transforms and
//! camera rectangles, and the layout of the title and end screens. The
//! engine uploads these; computing them is pure geometry and lives here.

use vstd::prelude::*;
use crate::geom::{clampw, half_trunc, Rect, Vec2i, COORD_MAX, SPRITE};
use crate::sprites::{SheetRegion, Sprite};

verus! {

/// A sprite's placement on screen: pixel extent and center position.
/// Positions stay in fixed-point hundredths of a pixel; these games
/// never rotate a sprite, so no angle is carried.
#[derive(Clone, Copy, PartialEq, Eq, Structural, Debug)]
pub struct Transform {
    pub w: u16,
    pub h: u16,
    pub x: i64,
    pub y: i64,
}

/// A camera rectangle: screen origin and size.
#[derive(Clone, Copy, PartialEq, Eq, Structural, Debug)]
pub struct Camera2D {
    pub screen_pos: Vec2i,
    pub screen_size: Vec2i,
}

/// A fixed-point length as a whole pixel count, as the narrowing to the
/// transform's `u16` extent behaves: fractions dropped, negatives to
/// zero, large values pinned at the top.
pub open spec fn px_u16(v: int) -> u16 {
    if v < 0 {
        0
    } else if v / 100 > 65535 {
        65535
    } else {
        (v / 100) as u16
    }
}

/// Narrows a fixed-point length to whole pixels in `u16`.
pub fn px_of(v: i64) -> (r: u16)
    ensures
        r == px_u16(v as int),
{
    if v < 0 {
        0
    } else {
        let p = v / 100;
        if p > 65535 {
            65535
        } else {
            p as u16
        }
    }
}

impl From<SPRITE> for Transform {
    fn from(val: SPRITE) -> (r: Transform)
        ensures
            r == Transform::of_sprite(val),
    {
        Transform {
            w: px_of(val.size.x),
            h: px_of(val.size.y),
            x: val.center.x,
            y: val.center.y,
        }
    }
}

impl vstd::std_specs::convert::FromSpecImpl<SPRITE> for Transform {
    open spec fn obeys_from_spec() -> bool {
        true
    }

    open spec fn from_spec(val: SPRITE) -> Transform {
        Transform::of_sprite(val)
    }
}

impl From<Rect> for Transform {
    fn from(val: Rect) -> (r: Transform)
        ensures
            r == Transform::of_rect(val),
    {
        Transform {
            w: px_of(val.size.x),
            h: px_of(val.size.y),
            x: crate::geom::clamp_wide(val.corner.x as i128 + crate::geom::half_i64(val.size.x) as i128),
            y: crate::geom::clamp_wide(val.corner.y as i128 + crate::geom::half_i64(val.size.y) as i128),
        }
    }
}

impl vstd::std_specs::convert::FromSpecImpl<Rect> for Transform {
    open spec fn obeys_from_spec() -> bool {
        true
    }

    open spec fn from_spec(val: Rect) -> Transform {
        Transform::of_rect(val)
    }
}

impl Transform {
    /// The placement of a center-form box: its center and pixel extent.
    pub open spec fn of_sprite(val: SPRITE) -> Transform {
        Transform {
            w: px_u16(val.size.x as int),
            h: px_u16(val.size.y as int),
            x: val.center.x,
            y: val.center.y,
        }
    }

    /// The placement of a corner-form box: its midpoint and pixel extent.
    pub open spec fn of_rect(val: Rect) -> Transform {
        Transform {
            w: px_u16(val.size.x as int),
            h: px_u16(val.size.y as int),
            x: clampw(val.corner.x + half_trunc(val.size.x as int)),
            y: clampw(val.corner.y + half_trunc(val.size.y as int)),
        }
    }
}

impl From<Rect> for Camera2D {
    fn from(val: Rect) -> (r: Camera2D)
        ensures
            r == (Camera2D { screen_pos: val.corner, screen_size: val.size }),
    {
        Camera2D { screen_pos: val.corner, screen_size: val.size }
    }
}

impl vstd::std_specs::convert::FromSpecImpl<Rect> for Camera2D {
    open spec fn obeys_from_spec() -> bool {
        true
    }

    open spec fn from_spec(val: Rect) -> Camera2D {
        Camera2D { screen_pos: val.corner, screen_size: val.size }
    }
}

impl From<SPRITE> for Camera2D {
    fn from(val: SPRITE) -> (r: Camera2D)
        ensures
            r == (Camera2D { screen_pos: val.as_rect().corner, screen_size: val.size }),
    {
        let corner_rect = Rect::from(val);
        Camera2D { screen_pos: corner_rect.corner, screen_size: val.size }
    }
}

impl vstd::std_specs::convert::FromSpecImpl<SPRITE> for Camera2D {
    open spec fn obeys_from_spec() -> bool {
        true
    }

    open spec fn from_spec(val: SPRITE) -> Camera2D {
        Camera2D { screen_pos: val.as_rect().corner, screen_size: val.size }
    }
}

/// The one sprite of a full-window splash screen: the window's width,
/// centered, with a quarter of the height trimmed.
pub open spec fn splash_sprite(width: i64, height: i64) -> SPRITE {
    SPRITE {
        center: Vec2i { x: (width as int / 2) as i64, y: (height as int / 2) as i64 },
        size: Vec2i { x: width, y: (height - height as int / 4) as i64 },
    }
}

/// The title screen's one sprite and its sheet region: the whole
/// 768 x 864 title image over the splash layout.
pub fn render_start_sprite(width: i64, height: i64) -> (r: (Transform, SheetRegion))
    requires
        0 <= width <= COORD_MAX,
        0 <= height <= COORD_MAX,
    ensures
        r.0 == Transform::of_sprite(splash_sprite(width, height)),
        r.1 == SheetRegion::new_spec(0, 0, 0, 0, 768, 864),
{
    let t = Transform::from(
        SPRITE {
            center: Vec2i { x: width / 2, y: height / 2 },
            size: Vec2i { x: width, y: height - height / 4 },
        },
    );
    (t, SheetRegion::new(0, 0, 0, 0, 768, 864))
}

/// The end screen's one sprite over the splash layout, and the spot
/// where the final score is drawn: a figure row starting 60 pixels right
/// of center, `font_y_offset` above or below the middle.
pub fn render_end_sprite(width: i64, height: i64, font_y_offset: i64) -> (r: (
    Transform,
    SheetRegion,
    Vec2i,
))
    requires
        0 <= width <= COORD_MAX,
        0 <= height <= COORD_MAX,
        crate::geom::in_coord(font_y_offset),
    ensures
        r.0 == Transform::of_sprite(splash_sprite(width, height)),
        r.1 == SheetRegion::new_spec(0, 0, 0, 1, 768, 864),
        r.2 == (Vec2i {
            x: (width as int / 2 + 6000) as i64,
            y: (height as int / 2 + font_y_offset) as i64,
        }),
{
    let t = Transform::from(
        SPRITE {
            center: Vec2i { x: width / 2, y: height / 2 },
            size: Vec2i { x: width, y: height - height / 4 },
        },
    );
    let text_pos = Vec2i { x: width / 2 + 6000, y: height / 2 + font_y_offset };
    (t, SheetRegion::new(0, 0, 0, 1, 768, 864), text_pos)
}

/// Where the in-game score is drawn: 16 pixels in from the left edge and
/// 16 pixels below the top of the window.
pub fn render_game_sprites(height: i64) -> (r: Vec2i)
    requires
        0 <= height <= COORD_MAX,
    ensures
        r == (Vec2i { x: 1600, y: (height - 1600) as i64 }),
{
    Vec2i { x: 1600, y: height - 1600 }
}

/// The full-window background of a 768 x 1280 scene.
pub open spec fn bg_slot() -> (Transform, SheetRegion) {
    (
        Transform::of_sprite(
            SPRITE { center: Vec2i { x: 38400, y: 64000 }, size: Vec2i { x: 76800, y: 128000 } },
        ),
        SheetRegion::new_spec(0, 0, 0, 16, 640, 480),
    )
}

pub open spec fn wall_slots(walls: Seq<SPRITE>) -> Seq<(Transform, SheetRegion)> {
    walls.map_values(
        |w: SPRITE| (Transform::of_sprite(w), SheetRegion::new_spec(0, 0, 480, 12, 8, 8)),
    )
}

/// The character's walk cell: one of three 14 x 18 cells by the frame's
/// ones place; a frame outside the three-cell cycle (the games never
/// produce one) keeps the first cell, as the layout code leaves it.
pub open spec fn guy_slot(pos: Vec2i, curr_frame: usize) -> (Transform, SheetRegion) {
    (
        Transform::of_sprite(SPRITE { center: pos, size: Vec2i { x: 3840, y: 6533 } }),
        if curr_frame % 10 == 0 {
            SheetRegion::new_spec(0, 100, 498, 1, 14, 18)
        } else if curr_frame % 10 == 1 {
            SheetRegion::new_spec(0, 114, 480, 1, 14, 18)
        } else if curr_frame % 10 == 2 {
            SheetRegion::new_spec(0, 114, 498, 1, 14, 18)
        } else {
            SheetRegion::new_spec(0, 100, 498, 1, 14, 18)
        },
    )
}

pub open spec fn cop_slot(pos: Vec2i, curr_frame: usize) -> (Transform, SheetRegion) {
    (
        Transform::of_sprite(SPRITE { center: pos, size: Vec2i { x: 3840, y: 6533 } }),
        if curr_frame % 10 == 0 {
            SheetRegion::new_spec(0, 177, 498, 0, 14, 18)
        } else if curr_frame % 10 == 1 {
            SheetRegion::new_spec(0, 191, 480, 0, 14, 18)
        } else if curr_frame % 10 == 2 {
            SheetRegion::new_spec(0, 191, 498, 0, 14, 18)
        } else {
            SheetRegion::new_spec(0, 177, 498, 0, 14, 18)
        },
    )
}

pub open spec fn pavement_slots(pavements: Seq<Sprite>) -> Seq<(Transform, SheetRegion)> {
    pavements.map_values(
        |p: Sprite| (
            Transform::of_sprite(SPRITE { center: p.pos, size: Vec2i { x: 30000, y: 128000 } }),
            SheetRegion::new_spec(0, 640, 0, 5, 45, 748),
        ),
    )
}

pub open spec fn car_slots(cars: Seq<Sprite>) -> Seq<(Transform, SheetRegion)> {
    cars.map_values(
        |c: Sprite| (
            Transform::of_sprite(SPRITE { center: c.pos, size: Vec2i { x: 3840, y: 6533 } }),
            SheetRegion::new_spec(0, 27, 525, 3, 27, 32),
        ),
    )
}

pub open spec fn coin_slots(coins: Seq<Sprite>) -> Seq<(Transform, SheetRegion)> {
    coins.map_values(
        |c: Sprite| (
            Transform::of_sprite(SPRITE { center: c.pos, size: Vec2i { x: 3300, y: 3800 } }),
            SheetRegion::new_spec(0, 20, 480, 2, 16, 16),
        ),
    )
}

} // verus!
