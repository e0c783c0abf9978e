//! Entity placement: squared-distance proximity tests over the entity
//! lists, and the rejection-sampling spawner that draws random lanes
//! until the candidate clears every tracked entity.

use vstd::prelude::*;
use crate::geom::{in_coord, in_pos, Vec2i, COORD_MAX};
use crate::rng::rand_index;
use crate::sprites::Sprite;

verus! {

/// Two entities closer than this collide (22 pixels).
pub const COLLISION_DISTANCE: i64 = 2200;

/// The squared Euclidean distance between two points.
pub open spec fn dist_sq(a: Vec2i, b: Vec2i) -> int {
    (a.x - b.x) * (a.x - b.x) + (a.y - b.y) * (a.y - b.y)
}

/// The first index at or after `i` whose entry satisfies the predicate,
/// or -1 when none does: the model of every first-match search below.
pub open spec fn first_idx<A>(s: Seq<A>, pred: spec_fn(A) -> bool, i: int) -> int
    decreases s.len() - i,
{
    if i < 0 || i >= s.len() {
        -1
    } else if pred(s[i]) {
        i
    } else {
        first_idx(s, pred, i + 1)
    }
}

/// A witness at `k` with only misses before it pins the first index.
pub proof fn lemma_first_idx_found<A>(s: Seq<A>, pred: spec_fn(A) -> bool, i: int, k: int)
    requires
        0 <= i <= k < s.len(),
        pred(s[k]),
        forall|j: int| i <= j < k ==> !pred(s[j]),
    ensures
        first_idx(s, pred, i) == k,
    decreases k - i,
{
    if i < k {
        lemma_first_idx_found(s, pred, i + 1, k);
    }
}

/// Misses everywhere from `i` on pin the first index to none.
pub proof fn lemma_first_idx_none<A>(s: Seq<A>, pred: spec_fn(A) -> bool, i: int)
    requires
        0 <= i <= s.len(),
        forall|j: int| i <= j < s.len() ==> !pred(s[j]),
    ensures
        first_idx(s, pred, i) == -1,
    decreases s.len() - i,
{
    if i < s.len() {
        lemma_first_idx_none(s, pred, i + 1);
    }
}

/// The first entity within `r` of `p`, as an index into the list, or -1.
pub open spec fn first_hit(s: Seq<Sprite>, p: Vec2i, r: i64) -> int {
    first_idx(s, |c: Sprite| dist_sq(p, c.pos) <= r * r, 0)
}

/// Whether any entity is within `r` of `p` by the first-match search.
pub open spec fn collect_hit(s: Seq<Sprite>, p: Vec2i, r: i64) -> bool {
    first_hit(s, p, r) >= 0
}

/// The list after the first entity within `r` of `p` is swap-removed;
/// the list itself when none is.
pub open spec fn collected(s: Seq<Sprite>, p: Vec2i, r: i64) -> Seq<Sprite> {
    let h = first_hit(s, p, r);
    if h >= 0 {
        s.update(h, s.last()).drop_last()
    } else {
        s
    }
}

/// Whether two points lie within `r` of each other, decided exactly on
/// squares: dist(a, b) <= r iff dist_sq(a, b) <= r * r.
pub fn within_dist(a: Vec2i, b: Vec2i, r: i64) -> (res: bool)
    requires
        in_pos(a.x) && in_pos(a.y),
        in_pos(b.x) && in_pos(b.y),
        0 <= r <= COORD_MAX,
    ensures
        res == (dist_sq(a, b) <= r * r),
{
    let dx = a.x as i128 - b.x as i128;
    let dy = a.y as i128 - b.y as i128;
    proof {
        // factors stay within 2^42, so the squares stay below 2^84
        assert(0 <= (dx as int) * (dx as int) <= 0x10_0000_0000_0000_0000_0000) by (nonlinear_arith)
            requires
                -0x400_0000_0000 <= dx as int <= 0x400_0000_0000,
        ;
        assert(0 <= (dy as int) * (dy as int) <= 0x10_0000_0000_0000_0000_0000) by (nonlinear_arith)
            requires
                -0x400_0000_0000 <= dy as int <= 0x400_0000_0000,
        ;
    }
    let rr = r as i128;
    proof {
        assert(0 <= (rr as int) * (rr as int) <= 0x10_0000_0000_0000_0000_0000) by (nonlinear_arith)
            requires
                0 <= rr as int <= 0x400_0000_0000,
        ;
    }
    dx * dx + dy * dy <= rr * rr
}

/// Whether any entity in the list lies within `r` of the point.
pub fn any_within(list: &Vec<Sprite>, p: Vec2i, r: i64) -> (res: bool)
    requires
        forall|i: int| 0 <= i < list@.len() ==> (#[trigger] list@[i]).wf(),
        in_pos(p.x) && in_pos(p.y),
        0 <= r <= COORD_MAX,
    ensures
        res == exists|i: int|
            0 <= i < list@.len() && dist_sq(p, (#[trigger] list@[i]).pos) <= r * r,
{
    let n = list.len();
    let mut i: usize = 0;
    while i < n
        invariant
            n == list@.len(),
            i <= n,
            forall|j: int| 0 <= j < list@.len() ==> (#[trigger] list@[j]).wf(),
            in_pos(p.x) && in_pos(p.y),
            0 <= r <= COORD_MAX,
            forall|j: int| 0 <= j < i ==> !(dist_sq(p, (#[trigger] list@[j]).pos) <= r * r),
        decreases n - i,
    {
        if within_dist(p, list[i].pos, r) {
            return true;
        }
        i += 1;
    }
    false
}

/// The index of the first entity within `r` of the point, if any; what
/// the games' pickup and catch tests use.
pub fn first_within(list: &Vec<Sprite>, p: Vec2i, r: i64) -> (res: Option<usize>)
    requires
        forall|i: int| 0 <= i < list@.len() ==> (#[trigger] list@[i]).wf(),
        in_pos(p.x) && in_pos(p.y),
        0 <= r <= COORD_MAX,
    ensures
        res matches Some(idx) ==> idx < list@.len() && dist_sq(p, list@[idx as int].pos) <= r * r
            && forall|j: int| 0 <= j < idx ==> !(dist_sq(p, (#[trigger] list@[j]).pos) <= r * r),
        res is None ==> forall|j: int|
            0 <= j < list@.len() ==> !(dist_sq(p, (#[trigger] list@[j]).pos) <= r * r),
        res matches Some(idx) ==> idx as int == first_hit(list@, p, r),
        res is None ==> first_hit(list@, p, r) == -1,
{
    let n = list.len();
    let mut i: usize = 0;
    while i < n
        invariant
            n == list@.len(),
            i <= n,
            forall|j: int| 0 <= j < list@.len() ==> (#[trigger] list@[j]).wf(),
            in_pos(p.x) && in_pos(p.y),
            0 <= r <= COORD_MAX,
            forall|j: int| 0 <= j < i ==> !(dist_sq(p, (#[trigger] list@[j]).pos) <= r * r),
        decreases n - i,
    {
        if within_dist(p, list[i].pos, r) {
            proof {
                lemma_first_idx_found(
                    list@,
                    |c: Sprite| dist_sq(p, c.pos) <= r * r,
                    0,
                    i as int,
                );
            }
            return Some(i);
        }
        i += 1;
    }
    proof {
        lemma_first_idx_none(list@, |c: Sprite| dist_sq(p, c.pos) <= r * r, 0);
    }
    None
}

/// Removes the first entity within `r` of the point by swap-removal, as
/// the games consume a collected coin or a boarding passenger; the
/// survivors keep their records, only their order changes (the last
/// entity drops into the hole).
pub fn consume_first_within(list: &mut Vec<Sprite>, p: Vec2i, r: i64) -> (removed: Option<Sprite>)
    requires
        forall|i: int| 0 <= i < old(list)@.len() ==> (#[trigger] old(list)@[i]).wf(),
        in_pos(p.x) && in_pos(p.y),
        0 <= r <= COORD_MAX,
    ensures
        removed is None ==> *final(list) == *old(list) && forall|j: int|
            0 <= j < old(list)@.len() ==> !(dist_sq(p, (#[trigger] old(list)@[j]).pos) <= r * r),
        removed matches Some(c) ==> exists|idx: int|
            0 <= idx < old(list)@.len() && c == old(list)@[idx] && dist_sq(p, c.pos) <= r * r && (
            forall|j: int|
                0 <= j < idx ==> !(dist_sq(p, (#[trigger] old(list)@[j]).pos) <= r * r))
                && final(list)@ == old(list)@.update(idx, old(list)@.last()).drop_last(),
        removed matches Some(c) ==> final(list)@.to_multiset() == old(list)@.to_multiset().remove(
            c,
        ) && final(list)@.len() == old(list)@.len() - 1,
        final(list)@ == collected(old(list)@, p, r),
        (removed is Some) == collect_hit(old(list)@, p, r),
        removed matches Some(c) ==> c == old(list)@[first_hit(old(list)@, p, r)],
        forall|i: int| 0 <= i < final(list)@.len() ==> (#[trigger] final(list)@[i]).wf(),
{
    let found = first_within(list, p, r);
    match found {
        Some(idx) => {
            let ghost orig = list@;
            let c = list.swap_remove(idx);
            proof {
                crate::sprites::lemma_swap_remove_multiset(orig, idx as int);
                assert forall|i: int| 0 <= i < list@.len() implies (#[trigger] list@[i]).wf() by {
                    assert(list@[i] == orig.update(idx as int, orig.last()).drop_last()[i]);
                };
            }
            Some(c)
        },
        None => None,
    }
}

/// One spawn-timer phase of a frame, for the list `list` checked against
/// the sampler's two groups `a` and `b` (in the order the game hands
/// them over): a running timer counts down and nothing spawns; an
/// expired timer below the population cap either appends one entity on
/// a clear lane at the spawn height with the falling velocity and rolls
/// the timer anew, or -- with every lane blocked -- changes nothing; a
/// full list leaves everything alone.
pub open spec fn spawn_phase_ok(
    list: Seq<Sprite>,
    a: Seq<Sprite>,
    b: Seq<Sprite>,
    timer: u32,
    list2: Seq<Sprite>,
    timer2: u32,
    lanes: Seq<i64>,
    spawn_y: i64,
    cap: int,
    timer_hi: u32,
) -> bool {
    if timer > 0 {
        &&& list2 == list
        &&& timer2 == timer - 1
    } else if list.len() < cap {
        ||| (exists|p: Vec2i|
            {
                &&& (exists|i: int| 0 <= i < lanes.len() && p.x == #[trigger] lanes[i])
                &&& p.y == spawn_y
                &&& #[trigger] lane_clear(p.x, spawn_y, a, b)
                &&& list2 == list.push(Sprite { pos: p, vel: Vec2i { x: 0, y: (-200) as i64 } })
                &&& 30 <= timer2 < timer_hi
            })
        ||| ((forall|i: int|
            0 <= i < lanes.len() ==> !lane_clear(#[trigger] lanes[i], spawn_y, a, b)) && list2
            == list && timer2 == timer)
    } else {
        &&& list2 == list
        &&& timer2 == timer
    }
}

/// The same spawn-timer phase for a tagged list: the sprite list obeys
/// `spawn_phase_ok` and the tag list grows by exactly the tag of the
/// appended sprite.
pub open spec fn spawn_phase_tagged<T>(
    list: Seq<Sprite>,
    tags: Seq<T>,
    a: Seq<Sprite>,
    b: Seq<Sprite>,
    timer: u32,
    list2: Seq<Sprite>,
    tags2: Seq<T>,
    timer2: u32,
    lanes: Seq<i64>,
    spawn_y: i64,
    cap: int,
    timer_hi: u32,
) -> bool {
    &&& spawn_phase_ok(list, a, b, timer, list2, timer2, lanes, spawn_y, cap, timer_hi)
    &&& (list2 == list ==> tags2 == tags)
    &&& (list2 != list ==> exists|tag: T| tags2 == tags.push(tag))
}

/// How many random draws the spawner makes before it scans the lanes in
/// order instead.
pub const SPAWN_DRAWS: usize = 32;

/// A lane is clear when a point on it at the spawn height is strictly
/// farther than the collision distance from every entity of both tracked
/// kinds.
pub open spec fn lane_clear(x: i64, spawn_y: i64, a: Seq<Sprite>, b: Seq<Sprite>) -> bool {
    let p = Vec2i { x, y: spawn_y };
    &&& forall|i: int|
        0 <= i < a.len() ==> dist_sq(p, (#[trigger] a[i]).pos) > COLLISION_DISTANCE
            * COLLISION_DISTANCE
    &&& forall|i: int|
        0 <= i < b.len() ==> dist_sq(p, (#[trigger] b[i]).pos) > COLLISION_DISTANCE
            * COLLISION_DISTANCE
}

/// LAW: a spawn position is drawn by rejection sampling and is never
/// within the collision distance of any entity of the two tracked kinds:
/// the chosen point sits on one of the lanes, at the spawn height, and
/// strictly clear of both lists. A position is found whenever a clear
/// lane exists: after a bounded number of random draws the lanes are
/// scanned in order, and only a board with every lane blocked yields
/// `None`.
pub fn spawn_position(
    lanes: &Vec<i64>,
    spawn_y: i64,
    group_a: &Vec<Sprite>,
    group_b: &Vec<Sprite>,
) -> (res: Option<Vec2i>)
    requires
        lanes@.len() >= 1,
        forall|i: int| 0 <= i < lanes@.len() ==> in_coord(#[trigger] lanes@[i]),
        in_coord(spawn_y),
        forall|i: int| 0 <= i < group_a@.len() ==> (#[trigger] group_a@[i]).wf(),
        forall|i: int| 0 <= i < group_b@.len() ==> (#[trigger] group_b@[i]).wf(),
    ensures
        res matches Some(p) ==> p.y == spawn_y && (exists|i: int|
            0 <= i < lanes@.len() && p.x == #[trigger] lanes@[i]) && lane_clear(
            p.x,
            spawn_y,
            group_a@,
            group_b@,
        ),
        res is None ==> forall|i: int|
            0 <= i < lanes@.len() ==> !lane_clear(#[trigger] lanes@[i], spawn_y, group_a@, group_b@),
{
    let mut tries: usize = 0;
    while tries < SPAWN_DRAWS
        invariant
            lanes@.len() >= 1,
            forall|i: int| 0 <= i < lanes@.len() ==> in_coord(#[trigger] lanes@[i]),
            in_coord(spawn_y),
            forall|i: int| 0 <= i < group_a@.len() ==> (#[trigger] group_a@[i]).wf(),
            forall|i: int| 0 <= i < group_b@.len() ==> (#[trigger] group_b@[i]).wf(),
        decreases SPAWN_DRAWS - tries,
    {
        let idx = rand_index(lanes.len());
        let candidate = Vec2i { x: lanes[idx], y: spawn_y };
        let hit_a = any_within(group_a, candidate, COLLISION_DISTANCE);
        let hit_b = any_within(group_b, candidate, COLLISION_DISTANCE);
        if !hit_a && !hit_b {
            return Some(candidate);
        }
        tries += 1;
    }
    // every draw was rejected: take the first clear lane, if any
    let n = lanes.len();
    let mut i: usize = 0;
    while i < n
        invariant
            n == lanes@.len(),
            i <= n,
            forall|j: int| 0 <= j < lanes@.len() ==> in_coord(#[trigger] lanes@[j]),
            in_coord(spawn_y),
            forall|j: int| 0 <= j < group_a@.len() ==> (#[trigger] group_a@[j]).wf(),
            forall|j: int| 0 <= j < group_b@.len() ==> (#[trigger] group_b@[j]).wf(),
            forall|j: int|
                0 <= j < i ==> !lane_clear(#[trigger] lanes@[j], spawn_y, group_a@, group_b@),
        decreases n - i,
    {
        let candidate = Vec2i { x: lanes[i], y: spawn_y };
        let hit_a = any_within(group_a, candidate, COLLISION_DISTANCE);
        let hit_b = any_within(group_b, candidate, COLLISION_DISTANCE);
        if !hit_a && !hit_b {
            return Some(candidate);
        }
        i += 1;
    }
    None
}

} // verus!
