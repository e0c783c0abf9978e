//! Moving sprites and the shared per-frame helpers: scrolling side strips,
//! walk-cycle frame selection, and wall collision handling for a single
//! character.

use vstd::prelude::*;
use crate::geom::{
    clamp_pos, clampp, div_trunc, half_trunc, in_coord, in_pos, Vec2i, COORD_MAX, SPRITE,
};

verus! {

/// A plain position + velocity record; every game entity is one of these
/// plus, at most, a tag.
#[derive(Clone, Copy, PartialEq, Eq, Structural, Debug)]
pub struct Sprite {
    pub pos: Vec2i,
    pub vel: Vec2i,
}

impl Sprite {
    pub open spec fn wf(self) -> bool {
        &&& in_pos(self.pos.x)
        &&& in_pos(self.pos.y)
        &&& in_coord(self.vel.x)
        &&& in_coord(self.vel.y)
    }

    /// One Euler step: the position moves by the velocity, saturating at
    /// the position range.
    pub open spec fn stepped(self) -> Sprite {
        Sprite {
            pos: Vec2i {
                x: clampp(self.pos.x + self.vel.x),
                y: clampp(self.pos.y + self.vel.y),
            },
            vel: self.vel,
        }
    }
}

/// A region of a sprite sheet, as the renderer addresses one: pixel
/// rectangle plus layer depth.
#[derive(Clone, Copy, PartialEq, Eq, Structural, Debug)]
pub struct SheetRegion {
    pub sheet: u16,
    pub x: u16,
    pub y: u16,
    pub depth: u16,
    pub w: u16,
    pub h: u16,
}

impl SheetRegion {
    pub open spec fn new_spec(sheet: u16, x: u16, y: u16, depth: u16, w: u16, h: u16) -> SheetRegion {
        SheetRegion { sheet, x, y, depth, w, h }
    }

    pub fn new(sheet: u16, x: u16, y: u16, depth: u16, w: u16, h: u16) -> (r: SheetRegion)
        ensures
            r == SheetRegion::new_spec(sheet, x, y, depth, w, h),
    {
        SheetRegion { sheet, x, y, depth, w, h }
    }
}

/// Picks the walk-cycle cell for an animation frame: three cells, given as
/// x/y pairs in `coords`, indexed by the frame's ones place; any other
/// frame leaves the region untouched.
pub fn animate_char(
    ones_place: &usize,
    uv: &mut SheetRegion,
    sheet: u16,
    coords: [u16; 6],
    depth: u16,
    w: u16,
    h: u16,
)
    ensures
        *ones_place == 0 ==> *final(uv) == SheetRegion::new_spec(
            sheet,
            coords[0],
            coords[1],
            depth,
            w,
            h,
        ),
        *ones_place == 1 ==> *final(uv) == SheetRegion::new_spec(
            sheet,
            coords[2],
            coords[3],
            depth,
            w,
            h,
        ),
        *ones_place == 2 ==> *final(uv) == SheetRegion::new_spec(
            sheet,
            coords[4],
            coords[5],
            depth,
            w,
            h,
        ),
        *ones_place >= 3 ==> *final(uv) == *old(uv),
{
    match *ones_place {
        0 => {
            *uv = SheetRegion::new(sheet, coords[0], coords[1], depth, w, h);
        },
        1 => {
            *uv = SheetRegion::new(sheet, coords[2], coords[3], depth, w, h);
        },
        2 => {
            *uv = SheetRegion::new(sheet, coords[4], coords[5], depth, w, h);
        },
        _ => {
            // for other cases, if they come up
        },
    }
}

/// Fixed-point scale of the difficulty speed multiplier: this many
/// parts make 1.0.
pub const MULT_ONE: u64 = 1_000_000;

/// The multiplier's growth pins here, a million-fold speed-up, rather
/// than outgrowing the position arithmetic.
pub const MULT_MAX: u64 = 1_000_000_000_000;

/// A sprite moved by its velocity scaled by the fixed-point multiplier,
/// as the difficulty ramp does each frame.
pub open spec fn scaled_step(p: Sprite, mult: u64) -> Sprite {
    Sprite {
        pos: Vec2i {
            x: clampp(p.pos.x + div_trunc(p.vel.x * mult, MULT_ONE as int)),
            y: clampp(p.pos.y + div_trunc(p.vel.y * mult, MULT_ONE as int)),
        },
        vel: p.vel,
    }
}

/// The multiplier after one frame's growth: up by a thousandth of the
/// leftover accumulator time, pinned at the cap.
pub open spec fn bumped_mult(mult: u64, acc: u64) -> u64 {
    let next = mult + acc as int / 720;
    if next > MULT_MAX {
        MULT_MAX
    } else {
        next as u64
    }
}

/// Grows the difficulty multiplier by one frame's worth.
pub fn bump_multiplier(mult: u64, acc: u64) -> (r: u64)
    requires
        mult <= MULT_MAX,
    ensures
        r == bumped_mult(mult, acc),
        r <= MULT_MAX,
{
    let inc = acc / 720;
    if inc >= MULT_MAX {
        MULT_MAX
    } else if mult > MULT_MAX - inc {
        MULT_MAX
    } else {
        mult + inc
    }
}

/// Moves every sprite one step by its velocity.
pub fn step_all(v: &mut Vec<Sprite>)
    requires
        forall|i: int| 0 <= i < old(v)@.len() ==> (#[trigger] old(v)@[i]).wf(),
    ensures
        final(v)@ == old(v)@.map_values(|p: Sprite| p.stepped()),
        forall|i: int| 0 <= i < final(v)@.len() ==> (#[trigger] final(v)@[i]).wf(),
{
    let ghost orig = v@;
    let n = v.len();
    let mut i: usize = 0;
    while i < n
        invariant
            n == v@.len(),
            n == orig.len(),
            i <= n,
            forall|j: int| 0 <= j < orig.len() ==> (#[trigger] orig[j]).wf(),
            forall|j: int| 0 <= j < i ==> v@[j] == (#[trigger] orig[j]).stepped(),
            forall|j: int| i <= j < n ==> #[trigger] v@[j] == orig[j],
        decreases n - i,
    {
        let p = v[i];
        let nx = clamp_pos(p.pos.x as i128 + p.vel.x as i128);
        let ny = clamp_pos(p.pos.y as i128 + p.vel.y as i128);
        v.set(i, Sprite { pos: Vec2i { x: nx, y: ny }, vel: p.vel });
        i += 1;
    }
    proof {
        assert(v@ =~= orig.map_values(|p: Sprite| p.stepped()));
    }
}

/// Moves every sprite one step by its velocity scaled by the difficulty
/// multiplier.
pub fn step_all_scaled(v: &mut Vec<Sprite>, mult: u64)
    requires
        forall|i: int| 0 <= i < old(v)@.len() ==> (#[trigger] old(v)@[i]).wf(),
        mult <= MULT_MAX,
    ensures
        final(v)@ == old(v)@.map_values(|p: Sprite| scaled_step(p, mult)),
        forall|i: int| 0 <= i < final(v)@.len() ==> (#[trigger] final(v)@[i]).wf(),
{
    let ghost orig = v@;
    let n = v.len();
    let mut i: usize = 0;
    while i < n
        invariant
            n == v@.len(),
            n == orig.len(),
            i <= n,
            mult <= MULT_MAX,
            forall|j: int| 0 <= j < orig.len() ==> (#[trigger] orig[j]).wf(),
            forall|j: int| 0 <= j < i ==> #[trigger] v@[j] == scaled_step(orig[j], mult),
            forall|j: int| i <= j < n ==> #[trigger] v@[j] == orig[j],
        decreases n - i,
    {
        let p = v[i];
        let nx = clamp_pos(p.pos.x as i128 + scale_component(p.vel.x, mult) as i128);
        let ny = clamp_pos(p.pos.y as i128 + scale_component(p.vel.y, mult) as i128);
        v.set(i, Sprite { pos: Vec2i { x: nx, y: ny }, vel: p.vel });
        i += 1;
    }
    proof {
        assert(v@ =~= orig.map_values(|p: Sprite| scaled_step(p, mult)));
    }
}

/// One velocity component scaled by the fixed-point multiplier,
/// truncated toward zero.
fn scale_component(vel: i64, mult: u64) -> (r: i64)
    requires
        in_coord(vel),
        mult <= MULT_MAX,
    ensures
        r as int == div_trunc(vel * mult, MULT_ONE as int),
{
    let wv = vel as i128;
    let wm = mult as i128;
    proof {
        // |vel| is at most 2^40 and the multiplier at most 2^40, so the
        // product stays within 2^80
        assert(-0x1_0000_0000_0000_0000_0000 <= (wv as int) * (wm as int)
            <= 0x1_0000_0000_0000_0000_0000) by (nonlinear_arith)
            requires
                -0x100_0000_0000 <= wv as int <= 0x100_0000_0000,
                0 <= wm as int <= 0x100_0000_0000,
        ;
    }
    let prod: i128 = wv * wm;
    let q: i128 = if prod >= 0 {
        prod / 1_000_000
    } else {
        -((-prod) / 1_000_000)
    };
    proof {
        assert(-0x2000_0000_0000_0000 <= q <= 0x2000_0000_0000_0000);
    }
    q as i64
}

/// The walk cycle's next state: every fifth frame the cell index walks
/// one step in the current direction, and the direction flips at the
/// ends.
pub open spec fn walk_spec(curr_frame: usize, frame_counter: usize, frame_direction: i64) -> (
    usize,
    usize,
    i64,
)
    recommends
        curr_frame <= 2,
        frame_direction == 1 || frame_direction == -1,
{
    let fc = ((frame_counter + 1) % 5) as usize;
    if fc == 0 {
        let cf = (curr_frame + frame_direction) as usize;
        if cf == 2 || cf == 0 {
            (cf, fc, (-frame_direction) as i64)
        } else {
            (cf, fc, frame_direction)
        }
    } else {
        (curr_frame, fc, frame_direction)
    }
}

/// One tick of the three-cell walk cycle: every fifth frame the cell
/// index walks up and down between 0 and 2.
pub fn advance_walk_frame(curr_frame: usize, frame_counter: usize, frame_direction: i64) -> (r: (
    usize,
    usize,
    i64,
))
    requires
        frame_counter < 5,
        curr_frame <= 2,
        frame_direction == 1 || frame_direction == -1,
        curr_frame == 0 ==> frame_direction == 1,
        curr_frame == 2 ==> frame_direction == -1,
    ensures
        r == walk_spec(curr_frame, frame_counter, frame_direction),
        r.1 == (frame_counter + 1) % 5,
        r.0 <= 2,
        r.2 == 1 || r.2 == -1,
        r.0 == 0 ==> r.2 == 1,
        r.0 == 2 ==> r.2 == -1,
{
    let fc = (frame_counter + 1) % 5;
    let mut cf = curr_frame;
    let mut fd = frame_direction;
    if fc == 0 {
        // Update the current frame based on the direction
        let nf = cf as i64 + fd;
        cf = nf as usize;
        // Change the direction if reaching the boundaries
        if cf == 2 || cf == 0 {
            fd = -fd;
        }
    }
    (cf, fc, fd)
}

/// A score raised by one, pinned at the top of its range.
pub open spec fn bump_score(s: u32) -> u32 {
    if s < u32::MAX {
        (s + 1) as u32
    } else {
        s
    }
}

/// The tags of the pairs whose sprite lies strictly above the cutoff:
/// the mirror of `Seq::filter` on the tag side of a tagged list.
pub open spec fn keep_tags<T>(s: Seq<Sprite>, t: Seq<T>, cutoff: i64) -> Seq<T>
    recommends
        s.len() == t.len(),
    decreases s.len(),
{
    if s.len() == 0 {
        Seq::empty()
    } else {
        let rest = keep_tags(s.drop_last(), t.drop_last(), cutoff);
        if s.last().pos.y > cutoff {
            rest.push(t.last())
        } else {
            rest
        }
    }
}

/// Entry `k` of the tagged list `(av, at)` is a pair drawn from the
/// tagged list `(bv, bt)`.
pub open spec fn drawn_from_pair<T>(
    av: Seq<Sprite>,
    at: Seq<T>,
    bv: Seq<Sprite>,
    bt: Seq<T>,
    k: int,
) -> bool {
    exists|j: int| 0 <= j < bv.len() && av[k] == bv[j] && at[k] == #[trigger] bt[j]
}

/// Keeps, in order, exactly the tagged sprites strictly above the
/// cutoff line, each with its tag: the two lists travel together.
pub fn retain_above_tagged<T: Copy>(v: &mut Vec<Sprite>, tags: &mut Vec<T>, cutoff: i64)
    requires
        old(v)@.len() == old(tags)@.len(),
    ensures
        final(v)@ == old(v)@.filter(|p: Sprite| p.pos.y > cutoff),
        final(tags)@ == keep_tags(old(v)@, old(tags)@, cutoff),
        final(v)@.len() == final(tags)@.len(),
        forall|k: int|
            0 <= k < final(v)@.len() ==> #[trigger] drawn_from_pair(
                final(v)@,
                final(tags)@,
                old(v)@,
                old(tags)@,
                k,
            ),
        (forall|i: int| 0 <= i < old(v)@.len() ==> (#[trigger] old(v)@[i]).wf()) ==> (forall|
            i: int,
        | 0 <= i < final(v)@.len() ==> (#[trigger] final(v)@[i]).wf()),
{
    let ghost src_v = v@;
    let ghost src_t = tags@;
    let n = v.len();
    let mut out: Vec<Sprite> = Vec::new();
    let mut out_tags: Vec<T> = Vec::new();
    let mut i: usize = 0;
    while i < n
        invariant
            n == v@.len(),
            n == tags@.len(),
            v@ == src_v,
            tags@ == src_t,
            i <= n,
            out@.len() == out_tags@.len(),
            out@ == v@.take(i as int).filter(|p: Sprite| p.pos.y > cutoff),
            out_tags@ == keep_tags(v@.take(i as int), tags@.take(i as int), cutoff),
            forall|k: int|
                0 <= k < out@.len() ==> #[trigger] drawn_from_pair(out@, out_tags@, src_v, src_t, k),
        decreases n - i,
    {
        let p = v[i];
        proof {
            reveal(Seq::filter);
            assert(v@.take(i + 1).drop_last() =~= v@.take(i as int));
            assert(v@.take(i + 1).last() == v@[i as int]);
            assert(tags@.take(i + 1).drop_last() =~= tags@.take(i as int));
            assert(tags@.take(i + 1).last() == tags@[i as int]);
        }
        if p.pos.y > cutoff {
            let ghost out_pre = out@;
            let ghost out_tags_pre = out_tags@;
            out.push(p);
            out_tags.push(tags[i]);
            proof {
                assert(out@.drop_last() =~= out_pre);
                assert(out_tags@.drop_last() =~= out_tags_pre);
                assert forall|k: int| 0 <= k < out@.len() implies #[trigger] drawn_from_pair(
                    out@,
                    out_tags@,
                    src_v,
                    src_t,
                    k,
                ) by {
                    if k < out@.len() - 1 {
                        assert(drawn_from_pair(out_pre, out_tags_pre, src_v, src_t, k));
                        let j = choose|j: int|
                            0 <= j < src_v.len() && out_pre[k] == src_v[j] && out_tags_pre[k]
                                == #[trigger] src_t[j];
                        assert(out@[k] == src_v[j] && out_tags@[k] == src_t[j]);
                    } else {
                        assert(out@[k] == src_v[i as int] && out_tags@[k] == src_t[i as int]);
                    }
                };
            }
        }
        i += 1;
    }
    proof {
        assert(v@.take(n as int) =~= v@);
        assert(tags@.take(n as int) =~= tags@);
    }
    *v = out;
    *tags = out_tags;
    proof {
        assert forall|k: int| 0 <= k < v@.len() implies #[trigger] drawn_from_pair(
            v@,
            tags@,
            src_v,
            src_t,
            k,
        ) by {
            assert(drawn_from_pair(out@, out_tags@, src_v, src_t, k));
        };
        if forall|i: int| 0 <= i < src_v.len() ==> (#[trigger] src_v[i]).wf() {
            assert forall|i: int| 0 <= i < v@.len() implies (#[trigger] v@[i]).wf() by {
                assert(drawn_from_pair(v@, tags@, src_v, src_t, i));
                let j = choose|j: int|
                    0 <= j < src_v.len() && v@[i] == src_v[j] && tags@[i] == #[trigger] src_t[j];
                assert(src_v[j].wf());
            };
        }
    }
}

/// Swap-removes position `idx` from a tagged list, keeping the two
/// lists in step; returns the removed pair.
pub fn swap_remove_pair<T>(v: &mut Vec<Sprite>, tags: &mut Vec<T>, idx: usize) -> (r: (Sprite, T))
    requires
        old(v)@.len() == old(tags)@.len(),
        idx < old(v)@.len(),
    ensures
        r.0 == old(v)@[idx as int],
        final(v)@ == old(v)@.update(idx as int, old(v)@.last()).drop_last(),
        final(tags)@ == old(tags)@.update(idx as int, old(tags)@.last()).drop_last(),
        final(v)@.len() == final(tags)@.len(),
        forall|k: int|
            0 <= k < final(v)@.len() ==> old(v)@.contains(#[trigger] final(v)@[k]),
        (forall|i: int| 0 <= i < old(v)@.len() ==> (#[trigger] old(v)@[i]).wf()) ==> (forall|
            i: int,
        | 0 <= i < final(v)@.len() ==> (#[trigger] final(v)@[i]).wf()),
{
    let s = v.swap_remove(idx);
    let t = tags.swap_remove(idx);
    proof {
        assert forall|k: int| 0 <= k < v@.len() implies old(v)@.contains(#[trigger] v@[k]) by {
            if k == idx {
                assert(v@[k] == old(v)@[old(v)@.len() - 1]);
            } else {
                assert(v@[k] == old(v)@[k]);
            }
        };
        if forall|i: int| 0 <= i < old(v)@.len() ==> (#[trigger] old(v)@[i]).wf() {
            assert forall|i: int| 0 <= i < v@.len() implies (#[trigger] v@[i]).wf() by {
                if i == idx {
                    assert(v@[i] == old(v)@[old(v)@.len() - 1]);
                } else {
                    assert(v@[i] == old(v)@[i]);
                }
            };
        }
    }
    (s, t)
}

/// Entities scrolled off the bottom of a strip are dropped below this line.
pub open spec fn pavement_cutoff(screen_height: int) -> int {
    -(screen_height / 2)
}

/// The pair of fresh side strips: one on the right edge, one window height
/// above the most recent right strip, and one on the left likewise.
pub open spec fn fresh_pavements(
    s: Seq<Sprite>,
    speed: i64,
    screen_width: i64,
    screen_height: i64,
) -> Seq<Sprite>
    recommends
        s.len() >= 2,
{
    s.push(
        Sprite {
            pos: Vec2i {
                x: (screen_width - 200) as i64,
                y: clampp(s[s.len() - 2].pos.y + screen_height),
            },
            vel: Vec2i { x: 0, y: speed },
        },
    ).push(
        Sprite {
            pos: Vec2i { x: 200, y: clampp(s[s.len() - 1].pos.y + screen_height) },
            vel: Vec2i { x: 0, y: (-100) as i64 },
        },
    )
}

/// What one call to `generate_scrolling_side` leaves in the strip list:
/// two strips appended while fewer than 33 are alive, then every strip
/// moved by its velocity, then the ones below the cutoff dropped.
pub open spec fn scrolled_pavements(
    s: Seq<Sprite>,
    speed: i64,
    screen_width: i64,
    screen_height: i64,
) -> Seq<Sprite>
    recommends
        s.len() >= 2,
{
    let grown = if s.len() < 33 {
        fresh_pavements(s, speed, screen_width, screen_height)
    } else {
        s
    };
    grown.map_values(|p: Sprite| p.stepped()).filter(
        |p: Sprite| p.pos.y > pavement_cutoff(screen_height as int),
    )
}

/// Keeps an endless side strip alive: spawns a strip pair above the
/// newest ones while the list is short, scrolls every strip by its
/// velocity, and drops the strips that left the window.
pub fn generate_scrolling_side(
    pavements: &mut Vec<Sprite>,
    speed: i64,
    screen_width: i64,
    screen_height: i64,
)
    requires
        old(pavements)@.len() >= 2,
        forall|i: int| 0 <= i < old(pavements)@.len() ==> (#[trigger] old(pavements)@[i]).wf(),
        in_coord(speed),
        in_coord(screen_width),
        0 <= screen_height <= COORD_MAX,
    ensures
        final(pavements)@ == scrolled_pavements(old(pavements)@, speed, screen_width, screen_height),
        forall|i: int| 0 <= i < final(pavements)@.len() ==> (#[trigger] final(pavements)@[i]).wf(),
{
    let ghost orig = pavements@;
    // Spawn new pavements
    if pavements.len() < 33 {
        let newest_right_idx = pavements.len() - 2;
        let newest_left_idx = pavements.len() - 1;
        let right_y = clamp_pos(pavements[newest_right_idx].pos.y as i128 + screen_height as i128);
        // create a right pavement
        pavements.push(
            Sprite {
                pos: Vec2i { x: screen_width - 200, y: right_y },
                vel: Vec2i { x: 0, y: speed },
            },
        );
        let left_y = clamp_pos(pavements[newest_left_idx].pos.y as i128 + screen_height as i128);
        // create a left pavement
        pavements.push(
            Sprite { pos: Vec2i { x: 200, y: left_y }, vel: Vec2i { x: 0, y: -100 } },
        );
    }
    let ghost grown = pavements@;
    proof {
        assert(grown == if orig.len() < 33 {
            fresh_pavements(orig, speed, screen_width, screen_height)
        } else {
            orig
        });
    }
    // Update pavements
    step_all(pavements);
    let ghost mapped = pavements@;
    retain_above(pavements, -(screen_height / 2));
    proof {
        assert(pavements@ == scrolled_pavements(orig, speed, screen_width, screen_height));
        assert forall|k: int| 0 <= k < pavements@.len() implies (#[trigger] pavements@[k]).wf() by {
            assert(mapped.contains(pavements@[k]));
            let j = choose|j: int| 0 <= j < mapped.len() && mapped[j] == pavements@[k];
            assert(mapped[j] == grown[j].stepped());
            assert(grown[j].wf());
        };
    }
}

/// The box the resolver moves: a sprite of the given extent centered at
/// `pos`.
pub open spec fn char_box(pos: Vec2i, size: Vec2i) -> SPRITE {
    SPRITE { center: pos, size }
}

/// How many of the walls touch the box.
pub open spec fn touch_count(cb: SPRITE, walls: Seq<SPRITE>) -> nat
    decreases walls.len(),
{
    if walls.len() == 0 {
        0
    } else {
        touch_count(cb, walls.drop_last()) + if walls.last().touches(cb) {
            1nat
        } else {
            0nat
        }
    }
}

/// An index of a wall touching the box, when one exists.
pub open spec fn the_touch_idx(cb: SPRITE, walls: Seq<SPRITE>) -> int {
    choose|j: int| 0 <= j < walls.len() && (#[trigger] walls[j]).touches(cb)
}

/// One resolver push against a single wall: nothing moves when the boxes
/// are apart or the contact is degenerate (a zero overlap on either
/// axis); otherwise the box moves along the axis of smaller overlap, by
/// that overlap, away from the wall's center.
pub open spec fn push_once(pos: Vec2i, size: Vec2i, wall: SPRITE) -> Vec2i {
    let cb = char_box(pos, size);
    let ox = wall.x_overlap(cb);
    let oy = wall.y_overlap(cb);
    if !wall.touches(cb) {
        pos
    } else if ox == 0 || oy == 0 {
        pos
    } else if ox <= oy {
        let dx = if pos.x < wall.center.x {
            -ox
        } else {
            ox
        };
        Vec2i { x: clampp(pos.x + dx), y: pos.y }
    } else {
        let dy = if pos.y < wall.center.y {
            -oy
        } else {
            oy
        };
        Vec2i { x: pos.x, y: clampp(pos.y + dy) }
    }
}

/// Where the pass loop leaves the box when every pass meets at most one
/// wall: one push per pass, against that wall, until the passes run out
/// or no wall touches.
pub open spec fn resolve_steps(pos: Vec2i, size: Vec2i, walls: Seq<SPRITE>, steps: nat) -> Vec2i
    decreases steps,
{
    if steps == 0 {
        pos
    } else {
        let cb = char_box(pos, size);
        if touch_count(cb, walls) == 1 {
            resolve_steps(
                push_once(pos, size, walls[the_touch_idx(cb, walls)]),
                size,
                walls,
                (steps - 1) as nat,
            )
        } else {
            pos
        }
    }
}

/// Every pass of the trajectory meets at most one wall. The games' level
/// geometry keeps their character in this regime, and there the resolver
/// is pinned exactly.
pub open spec fn single_track(pos: Vec2i, size: Vec2i, walls: Seq<SPRITE>, steps: nat) -> bool
    decreases steps,
{
    steps == 0 || {
        let cb = char_box(pos, size);
        touch_count(cb, walls) <= 1 && (touch_count(cb, walls) == 0 || single_track(
            push_once(pos, size, walls[the_touch_idx(cb, walls)]),
            size,
            walls,
            (steps - 1) as nat,
        ))
    }
}

proof fn lemma_touch_count_zero(cb: SPRITE, walls: Seq<SPRITE>)
    ensures
        (touch_count(cb, walls) == 0) <==> (forall|j: int|
            0 <= j < walls.len() ==> !(#[trigger] walls[j]).touches(cb)),
    decreases walls.len(),
{
    if walls.len() > 0 {
        lemma_touch_count_zero(cb, walls.drop_last());
        if touch_count(cb, walls) == 0 {
            assert forall|j: int| 0 <= j < walls.len() implies !(#[trigger] walls[j]).touches(
                cb,
            ) by {
                if j < walls.len() - 1 {
                    assert(walls.drop_last()[j] == walls[j]);
                    assert(!walls.drop_last()[j].touches(cb));
                } else {
                    assert(walls.last() == walls[j]);
                }
            };
        }
        if forall|j: int| 0 <= j < walls.len() ==> !(#[trigger] walls[j]).touches(cb) {
            let sub = walls.drop_last();
            assert forall|j: int| 0 <= j < sub.len() implies !(#[trigger] sub[j]).touches(cb) by {
                assert(sub[j] == walls[j]);
            };
            assert(walls.last() == walls[walls.len() - 1]);
            assert(!walls.last().touches(cb));
            assert(touch_count(cb, walls.drop_last()) == 0);
        }
    }
}

proof fn lemma_touch_ge_one(cb: SPRITE, walls: Seq<SPRITE>, i: int)
    requires
        0 <= i < walls.len(),
        walls[i].touches(cb),
    ensures
        touch_count(cb, walls) >= 1,
    decreases walls.len(),
{
    if i < walls.len() - 1 {
        assert(walls.drop_last()[i] == walls[i]);
        lemma_touch_ge_one(cb, walls.drop_last(), i);
    }
}

proof fn lemma_touch_unique(cb: SPRITE, walls: Seq<SPRITE>, a: int, b: int)
    requires
        touch_count(cb, walls) <= 1,
        0 <= a < walls.len(),
        walls[a].touches(cb),
        0 <= b < walls.len(),
        walls[b].touches(cb),
    ensures
        a == b,
    decreases walls.len(),
{
    if a != b {
        if a == walls.len() - 1 {
            assert(walls.drop_last()[b] == walls[b]);
            lemma_touch_ge_one(cb, walls.drop_last(), b);
        } else if b == walls.len() - 1 {
            assert(walls.drop_last()[a] == walls[a]);
            lemma_touch_ge_one(cb, walls.drop_last(), a);
        } else {
            assert(walls.drop_last()[a] == walls[a]);
            assert(walls.drop_last()[b] == walls[b]);
            lemma_touch_unique(cb, walls.drop_last(), a, b);
        }
    }
}

proof fn lemma_touch_witness(cb: SPRITE, walls: Seq<SPRITE>)
    requires
        touch_count(cb, walls) >= 1,
    ensures
        0 <= the_touch_idx(cb, walls) < walls.len(),
        walls[the_touch_idx(cb, walls)].touches(cb),
    decreases walls.len(),
{
    if walls.last().touches(cb) {
        assert(walls[walls.len() - 1].touches(cb));
    } else {
        lemma_touch_witness(cb, walls.drop_last());
        let j = the_touch_idx(cb, walls.drop_last());
        assert(walls.drop_last()[j] == walls[j]);
        assert(walls[j].touches(cb));
    }
    assert(exists|j: int| 0 <= j < walls.len() && (#[trigger] walls[j]).touches(cb));
}

/// A position the resolver cannot move is kept by every remaining pass.
proof fn lemma_resolve_settled(pos: Vec2i, size: Vec2i, walls: Seq<SPRITE>, steps: nat)
    requires
        touch_count(char_box(pos, size), walls) == 0 || (touch_count(char_box(pos, size), walls)
            == 1 && push_once(
            pos,
            size,
            walls[the_touch_idx(char_box(pos, size), walls)],
        ) == pos),
    ensures
        single_track(pos, size, walls, steps),
        resolve_steps(pos, size, walls, steps) == pos,
    decreases steps,
{
    if steps > 0 {
        lemma_resolve_settled(pos, size, walls, (steps - 1) as nat);
    }
}

/// Bound on the overlap entries a contact can hold, with room to spare;
/// squared magnitudes then fit comfortably in `i128`.
pub const OVERLAP_BOUND: i64 = 16 * COORD_MAX;

/// What the resolver records about a contact: the wall's index, and the
/// per-axis overlap of that wall with the box.
pub open spec fn contact_ok(c: (usize, Vec2i), cb: SPRITE, walls: Seq<SPRITE>) -> bool {
    &&& c.0 < walls.len()
    &&& walls[c.0 as int].touches(cb)
    &&& c.1.x == walls[c.0 as int].x_overlap(cb)
    &&& c.1.y == walls[c.0 as int].y_overlap(cb)
    &&& 0 <= c.1.x <= OVERLAP_BOUND
    &&& 0 <= c.1.y <= OVERLAP_BOUND
}

/// The squared magnitude of an overlap pair, the resolver's sort key.
pub open spec fn key_of(d: Vec2i) -> int {
    d.x * d.x + d.y * d.y
}

fn key_exec(d: Vec2i) -> (k: i128)
    requires
        0 <= d.x <= OVERLAP_BOUND,
        0 <= d.y <= OVERLAP_BOUND,
    ensures
        k == key_of(d),
{
    let wx = d.x as i128;
    let wy = d.y as i128;
    proof {
        // each square stays below 2^88: the factors are at most 2^44
        assert(0 <= (wx as int) * (wx as int) <= 0x1_0000_0000_0000_0000_0000_00) by (nonlinear_arith)
            requires
                0 <= wx as int <= 0x1000_0000_0000,
        ;
        assert(0 <= (wy as int) * (wy as int) <= 0x1_0000_0000_0000_0000_0000_00) by (nonlinear_arith)
            requires
                0 <= wy as int <= 0x1000_0000_0000,
        ;
    }
    wx * wx + wy * wy
}

/// Every contact's overlap entries are nonnegative and bounded.
pub open spec fn overlaps_bounded(s: Seq<(usize, Vec2i)>) -> bool {
    forall|k: int|
        0 <= k < s.len() ==> 0 <= (#[trigger] s[k]).1.x <= OVERLAP_BOUND && 0 <= s[k].1.y
            <= OVERLAP_BOUND
}

/// Orders contacts by descending squared overlap magnitude. Insertion
/// sort by adjacent swaps of strictly misordered neighbours, so ties keep
/// their order, as the stable library sort the games rely on does.
fn sort_contacts(v: &mut Vec<(usize, Vec2i)>)
    requires
        overlaps_bounded(old(v)@),
    ensures
        final(v)@.len() == old(v)@.len(),
        forall|k: int| 0 <= k < final(v)@.len() ==> old(v)@.contains(#[trigger] final(v)@[k]),
        old(v)@.len() == 1 ==> final(v)@ == old(v)@,
{
    let ghost orig = v@;
    proof {
        assert(forall|k: int| 0 <= k < orig.len() ==> orig.contains(#[trigger] orig[k]));
    }
    let n = v.len();
    let mut i: usize = 1;
    while i < n
        invariant
            n == v@.len(),
            1 <= i,
            n <= 1 || i <= n,
            overlaps_bounded(v@),
            forall|k: int| 0 <= k < v@.len() ==> orig.contains(#[trigger] v@[k]),
            orig.len() == 1 ==> v@ == orig,
        decreases n - i,
    {
        let mut j: usize = i;
        while j > 0
            invariant
                n == v@.len(),
                i < n,
                j <= i,
                overlaps_bounded(v@),
                forall|k: int| 0 <= k < v@.len() ==> orig.contains(#[trigger] v@[k]),
                orig.len() == 1 ==> v@ == orig,
            ensures
                n == v@.len(),
                overlaps_bounded(v@),
                forall|k: int| 0 <= k < v@.len() ==> orig.contains(#[trigger] v@[k]),
                orig.len() == 1 ==> v@ == orig,
            decreases j,
        {
            let a = v[j - 1];
            let b = v[j];
            let ka = key_exec(a.1);
            let kb = key_exec(b.1);
            if ka < kb {
                v.set(j - 1, b);
                v.set(j, a);
                j -= 1;
            } else {
                break;
            }
        }
        i += 1;
    }
}

/// Every wall that touches the box does so degenerately: with a zero
/// overlap on some axis. Such grazing contacts stall the resolver -- the
/// pass loop breaks on its first one -- so the box stays put.
pub open spec fn all_contacts_degenerate(cb: SPRITE, walls: Seq<SPRITE>) -> bool {
    forall|i: int|
        0 <= i < walls.len() && (#[trigger] walls[i]).touches(cb) ==> (walls[i].x_overlap(cb) == 0
            || walls[i].y_overlap(cb) == 0)
}

/// Runs up to `collision_steps` resolver passes of the box of extent
/// `size` centered at `pos` against the walls. Each pass gathers the
/// walls touching a snapshot of the box, stops everything for good when
/// there are none, and otherwise works through them in descending order
/// of squared overlap, pushing the box out of each live contact along
/// the axis of smaller overlap.
///
/// A box the walls do not touch comes back unmoved; and as long as at
/// most one wall at a time touches the box -- the games' usual regime --
/// the result is exactly the `resolve_steps` trajectory.
pub fn resolve_collisions(
    pos: Vec2i,
    size: Vec2i,
    walls: &Vec<SPRITE>,
    collision_steps: usize,
) -> (r: Vec2i)
    requires
        char_box(pos, size).wf(),
        forall|i: int| 0 <= i < walls@.len() ==> (#[trigger] walls@[i]).wf(),
    ensures
        in_pos(r.x) && in_pos(r.y),
        single_track(pos, size, walls@, collision_steps as nat) ==> r == resolve_steps(
            pos,
            size,
            walls@,
            collision_steps as nat,
        ),
        (forall|i: int|
            0 <= i < walls@.len() ==> !(#[trigger] walls@[i]).touches(char_box(pos, size))) ==> r
            == pos,
        all_contacts_degenerate(char_box(pos, size), walls@) ==> r == pos,
{
    let ghost steps0 = collision_steps as nat;
    let ghost a0 = single_track(pos, size, walls@, steps0);
    let ghost g0 = all_contacts_degenerate(char_box(pos, size), walls@);
    let mut cur = pos;
    let mut contacts: Vec<(usize, Vec2i)> = Vec::with_capacity(walls.len());
    let mut iter: usize = 0;
    while iter < collision_steps
        invariant
            iter <= collision_steps,
            in_pos(cur.x),
            in_pos(cur.y),
            0 <= size.x <= COORD_MAX,
            0 <= size.y <= COORD_MAX,
            forall|i: int| 0 <= i < walls@.len() ==> (#[trigger] walls@[i]).wf(),
            a0 == single_track(pos, size, walls@, steps0),
            steps0 == collision_steps as nat,
            a0 ==> single_track(cur, size, walls@, (collision_steps - iter) as nat),
            a0 ==> resolve_steps(pos, size, walls@, steps0) == resolve_steps(
                cur,
                size,
                walls@,
                (collision_steps - iter) as nat,
            ),
            g0 == all_contacts_degenerate(char_box(pos, size), walls@),
            g0 ==> cur == pos,
        ensures
            in_pos(cur.x),
            in_pos(cur.y),
            a0 ==> resolve_steps(pos, size, walls@, steps0) == cur,
            g0 ==> cur == pos,
        decreases collision_steps - iter,
    {
        let ghost pass_start = cur;
        let ghost rem = (collision_steps - iter) as nat;
        let main_sprite = SPRITE { center: cur, size };
        contacts.clear();
        let mut wi: usize = 0;
        while wi < walls.len()
            invariant
                wi <= walls@.len(),
                forall|i: int| 0 <= i < walls@.len() ==> (#[trigger] walls@[i]).wf(),
                main_sprite == char_box(pass_start, size),
                main_sprite.wf(),
                contacts@.len() == touch_count(main_sprite, walls@.take(wi as int)),
                forall|k: int|
                    0 <= k < contacts@.len() ==> contact_ok(
                        #[trigger] contacts@[k],
                        main_sprite,
                        walls@,
                    ),
            decreases walls@.len() - wi,
        {
            let w = walls[wi];
            let d = w.displacement(main_sprite);
            proof {
                assert(walls@.take(wi + 1).drop_last() =~= walls@.take(wi as int));
                assert(walls@.take(wi + 1).last() == walls@[wi as int]);
            }
            match d {
                Some(dd) => {
                    contacts.push((wi, dd));
                },
                None => {},
            }
            wi += 1;
        }
        proof {
            assert(walls@.take(walls@.len() as int) =~= walls@);
        }
        if contacts.len() == 0 {
            proof {
                lemma_resolve_settled(cur, size, walls@, rem);
            }
            break;
        }
        sort_contacts(&mut contacts);
        let ghost pre_sort = contacts@;
        proof {
            assert forall|k: int| 0 <= k < contacts@.len() implies contact_ok(
                #[trigger] contacts@[k],
                main_sprite,
                walls@,
            ) by {
                assert(pre_sort.contains(contacts@[k]));
            };
        }
        let m = contacts.len();
        let mut k: usize = 0;
        while k < m
            invariant
                m == contacts@.len(),
                m >= 1,
                k <= m,
                in_pos(cur.x),
                in_pos(cur.y),
                0 <= size.x <= COORD_MAX,
                0 <= size.y <= COORD_MAX,
                forall|i: int| 0 <= i < walls@.len() ==> (#[trigger] walls@[i]).wf(),
                main_sprite == char_box(pass_start, size),
                main_sprite.wf(),
                touch_count(main_sprite, walls@) == m,
                forall|kk: int|
                    0 <= kk < contacts@.len() ==> contact_ok(
                        #[trigger] contacts@[kk],
                        main_sprite,
                        walls@,
                    ),
                a0 ==> single_track(pass_start, size, walls@, rem),
                rem >= 1,
                a0 && k == 0 ==> cur == pass_start,
                a0 && k > 0 ==> m == 1 && cur == push_once(
                    pass_start,
                    size,
                    walls@[contacts@[0].0 as int],
                ),
                g0 == all_contacts_degenerate(char_box(pos, size), walls@),
                g0 ==> k == 0 && cur == pass_start && pass_start == pos,
            ensures
                in_pos(cur.x),
                in_pos(cur.y),
                m == contacts@.len(),
                a0 ==> m == 1 && cur == push_once(pass_start, size, walls@[contacts@[0].0 as int]),
                g0 ==> cur == pass_start,
            decreases m - k,
        {
            proof {
                if a0 {
                    // a single-track pass has exactly this one contact
                    assert(touch_count(main_sprite, walls@) <= 1);
                }
            }
            let c = contacts[k];
            let wall_idx = c.0;
            let wall = walls[wall_idx];
            let disp_opt = wall.displacement(main_sprite);
            let disp = match disp_opt {
                Some(d) => d,
                None => Vec2i { x: 0, y: 0 },
            };
            // We got to a basically zero collision amount
            if disp.x == 0 || disp.y == 0 {
                proof {
                    if a0 {
                        assert(k == 0);
                        assert(cur == pass_start);
                        assert(contacts@[0].0 == wall_idx);
                        assert(walls@[wall_idx as int].touches(main_sprite));
                        assert(push_once(pass_start, size, walls@[contacts@[0].0 as int]) == cur);
                    }
                }
                break;
            }
            proof {
                if g0 {
                    // a degenerate contact would have broken out above
                    assert(walls@[wall_idx as int].touches(char_box(pos, size)));
                    assert(false);
                }
            }
            // character left of the wall: push left; below it: push down
            let dx = if cur.x < wall.center.x {
                -disp.x
            } else {
                disp.x
            };
            let dy = if cur.y < wall.center.y {
                -disp.y
            } else {
                disp.y
            };
            if disp.x <= disp.y {
                cur = Vec2i { x: clamp_pos(cur.x as i128 + dx as i128), y: cur.y };
            } else {
                cur = Vec2i { x: cur.x, y: clamp_pos(cur.y as i128 + dy as i128) };
            }
            k += 1;
        }
        proof {
            if a0 {
                let cb = char_box(pass_start, size);
                let u0 = contacts@[0].0 as int;
                let j = the_touch_idx(cb, walls@);
                lemma_touch_witness(cb, walls@);
                lemma_touch_unique(cb, walls@, j, u0);
                assert(single_track(cur, size, walls@, (rem - 1) as nat));
                assert(resolve_steps(pass_start, size, walls@, rem) == resolve_steps(
                    cur,
                    size,
                    walls@,
                    (rem - 1) as nat,
                ));
            }
        }
        iter += 1;
    }
    proof {
        let cb0 = char_box(pos, size);
        if forall|i: int| 0 <= i < walls@.len() ==> !(#[trigger] walls@[i]).touches(cb0) {
            lemma_touch_count_zero(cb0, walls@);
            lemma_resolve_settled(pos, size, walls@, steps0);
        }
    }
    cur
}

/// The box `handle_collisions` walks: 38.4 x 115.0 pixels.
pub open spec fn handled_char_size() -> Vec2i {
    Vec2i { x: 3840, y: 11500 }
}

/// Resolves the walking character against the level walls: up to
/// `collision_steps` passes, each pushing the character out of contact
/// along the smaller-overlap axis, away from the wall.
///
/// A character the walls do not touch stays exactly where it was, and
/// with at most one wall in contact at a time the final position is the
/// `resolve_steps` trajectory; the velocity is never touched.
pub fn handle_collisions(character: &mut Sprite, walls: &Vec<SPRITE>, collision_steps: usize)
    requires
        old(character).wf(),
        forall|i: int| 0 <= i < walls@.len() ==> (#[trigger] walls@[i]).wf(),
    ensures
        final(character).vel == old(character).vel,
        final(character).wf(),
        single_track(
            old(character).pos,
            handled_char_size(),
            walls@,
            collision_steps as nat,
        ) ==> final(character).pos == resolve_steps(
            old(character).pos,
            handled_char_size(),
            walls@,
            collision_steps as nat,
        ),
        (forall|i: int|
            0 <= i < walls@.len() ==> !(#[trigger] walls@[i]).touches(
                char_box(old(character).pos, handled_char_size()),
            )) ==> final(character).pos == old(character).pos,
        all_contacts_degenerate(char_box(old(character).pos, handled_char_size()), walls@)
            ==> final(character).pos == old(character).pos,
{
    let size = Vec2i { x: 3840, y: 11500 };
    let new_pos = resolve_collisions(character.pos, size, walls, collision_steps);
    character.pos = new_pos;
}

/// LAW: consuming one entity by swap-removal (what `Vec::swap_remove`
/// leaves behind: the last element dropped into the hole) keeps every
/// other entity's record: the multiset of entries loses exactly the
/// removed one.
pub proof fn lemma_swap_remove_multiset<A>(s: Seq<A>, i: int)
    requires
        0 <= i < s.len(),
    ensures
        s.update(i, s.last()).drop_last().to_multiset() == s.to_multiset().remove(s[i]),
{
    if i == s.len() - 1 {
        assert(s.update(i, s.last()) =~= s);
        assert(s.drop_last() =~= s.remove(i));
        vstd::seq_lib::to_multiset_remove(s, i);
    } else {
        let u = s.update(i, s.last());
        assert(u =~= s.remove(i).insert(i, s.last()));
        vstd::seq_lib::to_multiset_remove(s, i);
        vstd::seq_lib::to_multiset_insert(s.remove(i), i, s.last());
        assert(u.to_multiset() == s.to_multiset().remove(s[i]).insert(s.last()));
        assert(u.drop_last() =~= u.remove(u.len() - 1));
        vstd::seq_lib::to_multiset_remove(u, u.len() - 1);
        assert(u[u.len() - 1] == s.last());
        assert(u.drop_last().to_multiset() == u.to_multiset().remove(s.last()));
        assert(s.to_multiset().remove(s[i]).insert(s.last()).remove(s.last()) =~= s.to_multiset()
            .remove(s[i]));
    }
}

/// One pavement-timer phase of a frame: a running timer counts down; an
/// expired timer with room (and the two strips the spawner reads) adds
/// the fresh pair and rolls the timer anew; otherwise nothing changes.
pub open spec fn pav_phase_ok(pavs: Seq<Sprite>, timer: u32, pavs2: Seq<Sprite>, timer2: u32) -> bool {
    if timer > 0 {
        &&& pavs2 == pavs
        &&& timer2 == timer - 1
    } else if pavs.len() < 33 && pavs.len() >= 2 {
        &&& pavs2 == fresh_pavements(pavs, (-100) as i64, 76800, 128000)
        &&& 30 <= timer2 < 90
    } else {
        &&& pavs2 == pavs
        &&& timer2 == timer
    }
}

/// Both axis overlaps are strictly positive: the boxes interpenetrate
/// with positive area.
pub open spec fn strictly_overlaps(a: SPRITE, b: SPRITE) -> bool {
    a.x_overlap(b) > 0 && a.y_overlap(b) > 0
}

/// The box penetrates the wall from one side along the axis the resolver
/// will push: on that axis it sticks out past the wall's edge on the side
/// it will be pushed toward, and not past the opposite edge. This is how
/// a walking character meets a floor or a side wall; it excludes a box
/// containing the wall's interval or contained in it, which one push
/// cannot separate.
pub open spec fn penetrates_one_sided(pos: Vec2i, size: Vec2i, wall: SPRITE) -> bool {
    let cb = char_box(pos, size);
    let c = cb.as_rect();
    let w = wall.as_rect();
    let ox = wall.x_overlap(cb);
    let oy = wall.y_overlap(cb);
    &&& ox > 0
    &&& oy > 0
    &&& if ox <= oy {
        if pos.x < wall.center.x {
            c.left() < w.left() && c.right() <= w.right()
        } else {
            w.left() <= c.left() && w.right() < c.right()
        }
    } else {
        if pos.y < wall.center.y {
            c.bottom() < w.bottom() && c.top() <= w.top()
        } else {
            w.bottom() <= c.bottom() && w.top() < c.top()
        }
    }
}

/// LAW: against a single wall penetrated from one side, the resolver
/// pushes the box once along the axis of smaller overlap, away from the
/// wall's center, and that one push already ends the strict overlap:
/// every remaining pass (the games run three) leaves the box where the
/// first pass put it.
pub proof fn lemma_one_wall_clears(pos: Vec2i, size: Vec2i, wall: SPRITE, steps: nat)
    requires
        in_coord(pos.x),
        in_coord(pos.y),
        0 <= size.x <= COORD_MAX,
        0 <= size.y <= COORD_MAX,
        wall.wf(),
        penetrates_one_sided(pos, size, wall),
        steps >= 1,
    ensures
        single_track(pos, size, seq![wall], steps),
        resolve_steps(pos, size, seq![wall], steps) == push_once(pos, size, wall),
        !strictly_overlaps(wall, char_box(resolve_steps(pos, size, seq![wall], steps), size)),
{
    let walls = seq![wall];
    let cb = char_box(pos, size);
    let c = cb.as_rect();
    let w = wall.as_rect();
    let ox = wall.x_overlap(cb);
    let oy = wall.y_overlap(cb);
    assert(walls.drop_last() =~= Seq::<SPRITE>::empty());
    assert(walls.last() == wall);
    assert(wall.touches(cb));
    assert(touch_count(cb, Seq::<SPRITE>::empty()) == 0);
    assert(touch_count(cb, walls.drop_last()) == 0);
    assert(touch_count(cb, walls) == 1);
    lemma_touch_witness(cb, walls);
    assert(the_touch_idx(cb, walls) == 0);
    let p1 = push_once(pos, size, wall);
    let cb1 = char_box(p1, size);
    let c1 = cb1.as_rect();
    // the corner form is exact here: nothing reaches the saturation bounds
    assert(0 <= half_trunc(size.x as int) <= size.x);
    assert(0 <= half_trunc(size.y as int) <= size.y);
    assert(c.left() == pos.x - half_trunc(size.x as int));
    assert(c.bottom() == pos.y - half_trunc(size.y as int));
    if ox <= oy {
        assert(ox <= c.right() - c.left());
        if pos.x < wall.center.x {
            // pushed left, flush against the wall's left edge
            assert(ox == c.right() - w.left());
            assert(p1 == Vec2i { x: clampp(pos.x - ox), y: pos.y });
            assert(p1.x == pos.x - ox);
            assert(c1.left() == c.left() - ox && c1.right() == c.right() - ox);
            assert(c1.bottom() == c.bottom() && c1.top() == c.top());
            assert(wall.x_overlap(cb1) == 0);
        } else {
            // pushed right, flush against the wall's right edge
            assert(ox == w.right() - c.left());
            assert(p1 == Vec2i { x: clampp(pos.x + ox), y: pos.y });
            assert(p1.x == pos.x + ox);
            assert(c1.left() == c.left() + ox && c1.right() == c.right() + ox);
            assert(c1.bottom() == c.bottom() && c1.top() == c.top());
            assert(wall.x_overlap(cb1) == 0);
        }
        assert(wall.y_overlap(cb1) == oy);
    } else {
        assert(oy <= c.top() - c.bottom());
        if pos.y < wall.center.y {
            // pushed down, flush against the wall's bottom edge
            assert(oy == c.top() - w.bottom());
            assert(p1 == Vec2i { x: pos.x, y: clampp(pos.y - oy) });
            assert(p1.y == pos.y - oy);
            assert(c1.bottom() == c.bottom() - oy && c1.top() == c.top() - oy);
            assert(c1.left() == c.left() && c1.right() == c.right());
            assert(wall.y_overlap(cb1) == 0);
        } else {
            // pushed up, flush against the wall's top edge
            assert(oy == w.top() - c.bottom());
            assert(p1 == Vec2i { x: pos.x, y: clampp(pos.y + oy) });
            assert(p1.y == pos.y + oy);
            assert(c1.bottom() == c.bottom() + oy && c1.top() == c.top() + oy);
            assert(c1.left() == c.left() && c1.right() == c.right());
            assert(wall.y_overlap(cb1) == 0);
        }
        assert(wall.x_overlap(cb1) == ox);
    }
    assert(wall.touches(cb1));
    assert(!strictly_overlaps(wall, cb1));
    assert(walls.last().touches(cb1));
    assert(touch_count(cb1, Seq::<SPRITE>::empty()) == 0);
    assert(touch_count(cb1, walls.drop_last()) == 0);
    assert(touch_count(cb1, walls) == 1);
    lemma_touch_witness(cb1, walls);
    assert(the_touch_idx(cb1, walls) == 0);
    assert(push_once(p1, size, wall) == p1);
    lemma_resolve_settled(p1, size, walls, (steps - 1) as nat);
    assert(resolve_steps(pos, size, walls, steps) == p1);
    assert(single_track(pos, size, walls, steps));
}

/// Keeps, in order, exactly the sprites strictly above the cutoff line.
pub fn retain_above(v: &mut Vec<Sprite>, cutoff: i64)
    ensures
        final(v)@ == old(v)@.filter(|p: Sprite| p.pos.y > cutoff),
        forall|k: int| 0 <= k < final(v)@.len() ==> old(v)@.contains(#[trigger] final(v)@[k]),
        (forall|i: int| 0 <= i < old(v)@.len() ==> (#[trigger] old(v)@[i]).wf()) ==> (forall|
            i: int,
        | 0 <= i < final(v)@.len() ==> (#[trigger] final(v)@[i]).wf()),
{
    let n = v.len();
    let mut out: Vec<Sprite> = Vec::new();
    let mut i: usize = 0;
    while i < n
        invariant
            n == v@.len(),
            i <= n,
            out@ == v@.take(i as int).filter(|p: Sprite| p.pos.y > cutoff),
            forall|k: int| 0 <= k < out@.len() ==> v@.contains(#[trigger] out@[k]),
        decreases n - i,
    {
        let p = v[i];
        proof {
            reveal(Seq::filter);
            assert(v@.take(i + 1).drop_last() =~= v@.take(i as int));
            assert(v@.take(i + 1).last() == v@[i as int]);
            assert(v@.contains(v@[i as int]));
        }
        if p.pos.y > cutoff {
            out.push(p);
        }
        i += 1;
    }
    proof {
        assert(v@.take(n as int) =~= v@);
    }
    let ghost src = v@;
    *v = out;
    proof {
        assert forall|k: int| 0 <= k < v@.len() implies src.contains(#[trigger] v@[k]) by {
            assert(v@[k] == out@[k]);
        };
        if forall|i: int| 0 <= i < src.len() ==> (#[trigger] src[i]).wf() {
            assert forall|i: int| 0 <= i < v@.len() implies (#[trigger] v@[i]).wf() by {
                assert(src.contains(v@[i]));
                let j = choose|j: int| 0 <= j < src.len() && src[j] == v@[i];
                assert(src[j].wf());
            };
        }
    }
}

} // verus!
