//! The shared engine pieces: geometry, collision resolution, frame
//! pacing, spawning and the scrolling helpers, on concrete values.

use lane_runner::geom::{Rect, Vec2i, SPRITE};
use lane_runner::pacer::FramePacer;
use lane_runner::render::{px_of, render_end_sprite, render_game_sprites, render_start_sprite, Transform};
use lane_runner::spawn::{
    any_within, consume_first_within, first_within, spawn_position, within_dist,
};
use lane_runner::sprites::{
    animate_char, bump_multiplier, generate_scrolling_side, handle_collisions, resolve_collisions,
    retain_above, step_all, step_all_scaled, SheetRegion, Sprite,
};

fn vx(x: i64, y: i64) -> Vec2i {
    Vec2i { x, y }
}

fn sp(cx: i64, cy: i64, w: i64, h: i64) -> SPRITE {
    SPRITE { center: vx(cx, cy), size: vx(w, h) }
}

/// The three walls every game builds: left, right, floor.
fn level_walls() -> Vec<SPRITE> {
    vec![
        sp(800, 64000, 28800, 128000),
        sp(76000, 64000, 28800, 128000),
        sp(38400, 800, 76800, 1600),
    ]
}

#[test]
fn overlap_magnitudes_are_exact() {
    // boxes [0,400]x[0,400] and [300,700]x[100,500] in corner form
    let a = Rect { corner: vx(0, 0), size: vx(400, 400) };
    let b = Rect { corner: vx(300, 100), size: vx(400, 400) };
    assert_eq!(a.displacement(b), Some(vx(100, 300)));
    // separated on x
    let c = Rect { corner: vx(500, 0), size: vx(100, 100) };
    let d = Rect { corner: vx(0, 0), size: vx(400, 400) };
    assert_eq!(c.displacement(d), None);
    // touching edges still count, with a zero overlap
    let e = Rect { corner: vx(400, 0), size: vx(100, 400) };
    assert_eq!(a.displacement(e), Some(vx(0, 400)));
}

#[test]
fn sprite_rect_conversions_agree() {
    let s = sp(1000, 2000, 400, 600);
    let r = Rect::from(s);
    assert_eq!(r.corner, vx(800, 1700));
    assert_eq!(r.size, vx(400, 600));
    let s2 = SPRITE::from(r);
    assert_eq!(s2, s);
}

#[test]
fn separated_character_is_not_moved() {
    // the character stands mid-screen, clear of all three walls
    let mut character = Sprite { pos: vx(37866, 64000), vel: vx(0, -100) };
    let walls = level_walls();
    handle_collisions(&mut character, &walls, 3);
    assert_eq!(character.pos, vx(37866, 64000));
    assert_eq!(character.vel, vx(0, -100));
}

#[test]
fn overlapping_character_is_pushed_out_along_smaller_axis() {
    // the 38.4 x 115 box sunk into the floor: the y overlap (13.5 px) is
    // smaller than the x overlap (38.4 px), so one pass pushes it up
    // until the boxes just touch
    let mut character = Sprite { pos: vx(37866, 6000), vel: vx(0, 0) };
    let walls = vec![sp(38400, 800, 76800, 1600)];
    handle_collisions(&mut character, &walls, 3);
    assert_eq!(character.pos, vx(37866, 7350));
}

#[test]
fn grazing_contact_does_not_move_the_character() {
    // the 38.4 x 115 box standing exactly on the floor: the boxes touch
    // with a zero vertical overlap, and such a stalemate contact leaves
    // the character put
    let mut character = Sprite { pos: vx(37866, 7350), vel: vx(0, 0) };
    let walls = vec![sp(38400, 800, 76800, 1600)];
    handle_collisions(&mut character, &walls, 3);
    assert_eq!(character.pos, vx(37866, 7350));
}

#[test]
fn resolver_takes_custom_box_sizes() {
    // same geometry through the in-game entry point with the walking
    // character's 38.4 x 65.33 box
    let walls = vec![sp(38400, 800, 76800, 1600)];
    let resolved = resolve_collisions(vx(37866, 4000), vx(3840, 6533), &walls, 3);
    // box bottom 4000 - 3266 = 734; overlap 1600 - 734 = 866; pushed up
    assert_eq!(resolved, vx(37866, 4866));
}

#[test]
fn pacer_releases_whole_steps_and_keeps_the_rest() {
    let mut pacer = FramePacer::new();
    // two and a half steps, nowhere near a snap window
    let ticks = pacer.advance(30000);
    assert_eq!(ticks, 2);
    assert_eq!(pacer.acc, 6000);
    // the remainder carries into the next frame
    let ticks = pacer.advance(6000);
    assert_eq!(ticks, 1);
    assert_eq!(pacer.acc, 0);
}

#[test]
fn pacer_snaps_to_vsync_rates() {
    let mut pacer = FramePacer::new();
    // 11900 units is within the fudge window of the 60 Hz period
    let ticks = pacer.advance(11900);
    assert_eq!(ticks, 1);
    assert_eq!(pacer.acc, 0);
    // 48143 is within the window of the 15 Hz period: four steps
    let ticks = pacer.advance(48143);
    assert_eq!(ticks, 4);
    assert_eq!(pacer.acc, 0);
}

#[test]
fn pacer_discards_a_stalled_backlog() {
    let mut pacer = FramePacer::new();
    pacer.advance(6000);
    assert_eq!(pacer.acc, 6000);
    // far beyond five steps: the backlog is dropped, one step runs
    let ticks = pacer.advance(1_000_000);
    assert_eq!(ticks, 1);
    assert_eq!(pacer.acc, 0);
}

#[test]
fn pacer_primitives_match_the_frame_loop() {
    let mut pacer = FramePacer::new();
    pacer.begin_frame(30000);
    assert_eq!(pacer.acc, 30000);
    assert!(pacer.consume_tick());
    assert_eq!(pacer.acc, 18000);
    assert!(pacer.consume_tick());
    assert!(!pacer.consume_tick());
    assert_eq!(pacer.acc, 6000);
}

#[test]
fn distance_test_is_exact_on_squares() {
    // 3-4-5 triangle at the collision radius: 2200 away on the nose
    let a = vx(0, 0);
    assert!(within_dist(a, vx(1320, 1760), 2200));
    assert!(!within_dist(a, vx(1320, 1761), 2200));
    assert!(any_within(&vec![Sprite { pos: vx(1320, 1760), vel: vx(0, 0) }], a, 2200));
    assert_eq!(
        first_within(&vec![Sprite { pos: vx(9000, 0), vel: vx(0, 0) }], a, 2200),
        None
    );
}

#[test]
fn spawner_only_places_on_the_free_lane() {
    let lanes: Vec<i64> = vec![26133, 37866, 49600];
    let spawn_y = 128800;
    // two lanes blocked at the spawn height: every draw must land on the third
    let blockers = vec![
        Sprite { pos: vx(26133, 128800), vel: vx(0, -200) },
        Sprite { pos: vx(37866, 128800), vel: vx(0, -200) },
    ];
    let empty: Vec<Sprite> = Vec::new();
    for _ in 0..20 {
        let p = spawn_position(&lanes, spawn_y, &blockers, &empty).unwrap();
        assert_eq!(p, vx(49600, 128800));
    }
}

#[test]
fn spawner_reports_a_saturated_board() {
    let lanes: Vec<i64> = vec![26133, 37866, 49600];
    let blockers = vec![
        Sprite { pos: vx(26133, 128800), vel: vx(0, -200) },
        Sprite { pos: vx(37866, 128800), vel: vx(0, -200) },
        Sprite { pos: vx(49600, 128800), vel: vx(0, -200) },
    ];
    let empty: Vec<Sprite> = Vec::new();
    assert_eq!(spawn_position(&lanes, 128800, &blockers, &empty), None);
}

#[test]
fn consuming_an_entity_keeps_the_others() {
    let a = Sprite { pos: vx(100, 100), vel: vx(1, 2) };
    let b = Sprite { pos: vx(90000, 0), vel: vx(3, 4) };
    let c = Sprite { pos: vx(0, 90000), vel: vx(5, 6) };
    let mut list = vec![a, b, c];
    // only `a` is near the origin; swap-removal drops the last into the hole
    let removed = consume_first_within(&mut list, vx(0, 0), 2200);
    assert_eq!(removed, Some(a));
    assert_eq!(list, vec![c, b]);
}

#[test]
fn retain_drops_exactly_the_fallen() {
    let hi = Sprite { pos: vx(0, 500), vel: vx(0, 0) };
    let low = Sprite { pos: vx(0, -900), vel: vx(0, 0) };
    let edge = Sprite { pos: vx(0, -800), vel: vx(0, 0) };
    let mut list = vec![hi, low, edge];
    retain_above(&mut list, -800);
    assert_eq!(list, vec![hi]);
}

#[test]
fn stepping_moves_by_velocity() {
    let mut list = vec![Sprite { pos: vx(1000, 2000), vel: vx(0, -200) }];
    step_all(&mut list);
    assert_eq!(list[0].pos, vx(1000, 1800));
    // double speed through the fixed-point multiplier
    step_all_scaled(&mut list, 2_000_000);
    assert_eq!(list[0].pos, vx(1000, 1400));
}

#[test]
fn multiplier_grows_by_the_leftover_time() {
    // a full frame's leftover of 11520 units adds 16 millionths
    assert_eq!(bump_multiplier(1_000_000, 11520), 1_000_016);
    // and pins at the cap
    assert_eq!(bump_multiplier(1_000_000_000_000, 11520), 1_000_000_000_000);
}

#[test]
fn scrolling_side_spawns_and_scrolls() {
    let mut pavements = vec![
        Sprite { pos: vx(76600, 0), vel: vx(0, -100) },
        Sprite { pos: vx(200, 0), vel: vx(0, -100) },
    ];
    generate_scrolling_side(&mut pavements, -100, 76800, 128000);
    assert_eq!(pavements.len(), 4);
    // the two starting strips scrolled down one pixel
    assert_eq!(pavements[0].pos, vx(76600, -100));
    assert_eq!(pavements[1].pos, vx(200, -100));
    // the fresh pair sits one window height above the newest, then scrolled
    assert_eq!(pavements[2].pos, vx(76600, 127900));
    assert_eq!(pavements[3].pos, vx(200, 127900));
}

#[test]
fn walk_cells_follow_the_ones_place() {
    let mut uv = SheetRegion::new(0, 0, 0, 0, 0, 0);
    animate_char(&1, &mut uv, 0, [100, 498, 114, 480, 114, 498], 1, 14, 18);
    assert_eq!(uv, SheetRegion::new(0, 114, 480, 1, 14, 18));
    let kept = uv;
    // frames past the third leave the region alone
    animate_char(&7, &mut uv, 0, [100, 498, 114, 480, 114, 498], 1, 14, 18);
    assert_eq!(uv, kept);
}

#[test]
fn transforms_narrow_to_whole_pixels() {
    assert_eq!(px_of(6533), 65);
    assert_eq!(px_of(-5), 0);
    let t = Transform::from(sp(37866, 2400, 3840, 6533));
    assert_eq!(t.w, 38);
    assert_eq!(t.h, 65);
    assert_eq!(t.x, 37866);
    assert_eq!(t.y, 2400);
}

#[test]
fn splash_layouts_are_fixed() {
    let (t, uv) = render_start_sprite(76800, 128000);
    assert_eq!(t.x, 38400);
    assert_eq!(t.y, 64000);
    assert_eq!(t.w, 768);
    assert_eq!(t.h, 960);
    assert_eq!(uv, SheetRegion::new(0, 0, 0, 0, 768, 864));
    let (t2, uv2, text_pos) = render_end_sprite(76800, 128000, -3000);
    assert_eq!(t2, t);
    assert_eq!(uv2, SheetRegion::new(0, 0, 0, 1, 768, 864));
    assert_eq!(text_pos, vx(44400, 61000));
    assert_eq!(render_game_sprites(128000), vx(1600, 126400));
}
