//! The level geometry every variant shares: the 768 x 1280 window's
//! three boundary walls, the three traffic lanes, the two curbside
//! columns, and the pair of pavement strips a fresh game starts with.

use vstd::prelude::*;
use crate::geom::{Vec2i, SPRITE};
use crate::sprites::Sprite;

verus! {

pub open spec fn left_wall() -> SPRITE {
    SPRITE { center: Vec2i { x: 800, y: 64000 }, size: Vec2i { x: 28800, y: 128000 } }
}

pub open spec fn right_wall() -> SPRITE {
    SPRITE { center: Vec2i { x: 76000, y: 64000 }, size: Vec2i { x: 28800, y: 128000 } }
}

pub open spec fn floor_wall() -> SPRITE {
    SPRITE { center: Vec2i { x: 38400, y: 800 }, size: Vec2i { x: 76800, y: 1600 } }
}

pub fn make_left_wall() -> (r: SPRITE)
    ensures
        r == left_wall(),
{
    SPRITE { center: Vec2i { x: 800, y: 64000 }, size: Vec2i { x: 28800, y: 128000 } }
}

pub fn make_right_wall() -> (r: SPRITE)
    ensures
        r == right_wall(),
{
    SPRITE { center: Vec2i { x: 76000, y: 64000 }, size: Vec2i { x: 28800, y: 128000 } }
}

pub fn make_floor_wall() -> (r: SPRITE)
    ensures
        r == floor_wall(),
{
    SPRITE { center: Vec2i { x: 38400, y: 800 }, size: Vec2i { x: 76800, y: 1600 } }
}

/// The three lane columns as a sequence.
pub open spec fn lane_cols() -> Seq<i64> {
    seq![26133int as i64, 37866int as i64, 49600int as i64]
}

/// The two curbside columns as a sequence.
pub open spec fn side_cols() -> Seq<i64> {
    seq![10000int as i64, 66800int as i64]
}

/// The three lane columns the characters and the traffic use.
pub fn lane_columns() -> (r: Vec<i64>)
    ensures
        r@ == lane_cols(),
{
    let mut v: Vec<i64> = Vec::new();
    v.push(26133);
    v.push(37866);
    v.push(49600);
    proof {
        assert(v@ =~= seq![26133int as i64, 37866int as i64, 49600int as i64]);
    }
    v
}

/// The two curbside columns, 100 pixels in from each edge.
pub fn side_columns() -> (r: Vec<i64>)
    ensures
        r@ == side_cols(),
{
    let mut v: Vec<i64> = Vec::new();
    v.push(10000);
    v.push(66800);
    proof {
        assert(v@ =~= seq![10000int as i64, 66800int as i64]);
    }
    v
}

/// The two pavement strips a fresh game starts with, one on each edge.
pub open spec fn initial_pavements() -> Seq<Sprite> {
    seq![
        (Sprite {
            pos: Vec2i { x: 76600, y: 0 },
            vel: Vec2i { x: 0, y: (-100) as i64 },
        }),
        (Sprite { pos: Vec2i { x: 200, y: 0 }, vel: Vec2i { x: 0, y: (-100) as i64 } }),
    ]
}

} // verus!
