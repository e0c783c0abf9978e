//! The coin-collecting variant: the character drives freely between the
//! walls, weaves through oncoming cars, and sweeps up coins; a chasing
//! cop shadows every move. Two states only: the title screen and play.

use vstd::prelude::*;
use crate::geom::{clamp_pos, clampp, in_pos, Vec2i, SPRITE};
use crate::level::{
    floor_wall, initial_pavements, lane_cols, lane_columns, left_wall, make_floor_wall,
    make_left_wall, make_right_wall, right_wall, side_cols, side_columns,
};
use crate::render::{
    bg_slot, car_slots, coin_slots, guy_slot, pavement_slots, wall_slots, Camera2D, Transform,
};
use crate::rng::rand_range_u32;
use crate::spawn::{collect_hit, collected, consume_first_within, spawn_phase_ok, spawn_position};
use crate::sprites::{
    advance_walk_frame, all_contacts_degenerate, bump_multiplier, bump_score, bumped_mult,
    char_box, pav_phase_ok, resolve_collisions, resolve_steps, retain_above, scaled_step,
    single_track, step_all, step_all_scaled, walk_spec, SheetRegion, Sprite, MULT_MAX, MULT_ONE,
};

verus! {

/// Window width in fixed-point hundredths: 768 pixels.
pub const W: i64 = 76800;

/// Window height in fixed-point hundredths: 1280 pixels.
pub const H: i64 = 128000;

/// The character's speed: 4 pixels a frame.
pub const GUY_SPEED: i64 = 400;

/// A coin this close is swept up: 75 pixels.
pub const DROP_OFF_DIST: i64 = 7500;

/// Resolver passes per frame.
pub const COLLISION_STEPS: usize = 3;

/// The character's starting height: 24 pixels up.
pub const GUY_Y_POS: i64 = 2400;

#[derive(Clone, Copy, PartialEq, Eq, Structural, Debug)]
pub enum GameState {
    TitleScreen,
    InGame,
}

/// The running character, or the cop who shadows it.
#[derive(Clone, Copy, PartialEq, Eq, Structural, Debug)]
pub struct Guy {
    pub pos: Vec2i,
    pub is_visible: bool,
}

pub struct Game {
    pub camera: Camera2D,
    pub walls: Vec<SPRITE>,
    pub guy: Guy,
    pub cop: Guy,
    pub cars: Vec<Sprite>,
    pub car_timer: u32,
    pub car_speed_multiplier: u64,
    pub coin_speed_multiplier: u64,
    pub coins: Vec<Sprite>,
    pub coin_timer: u32,
    pub pavements: Vec<Sprite>,
    pub pavement_timer: u32,
    pub score: u32,
    pub curr_frame: usize,
    pub frame_counter: usize,
    pub frame_direction: i64,
    pub game_over: bool,
    pub game_state: GameState,
}

/// The character's box in this variant: 38.4 x 65.33 pixels.
pub open spec fn runner_size() -> Vec2i {
    Vec2i { x: 3840, y: 6533 }
}

/// What one `move_runner` call does: the walk cycle ticks, both figures
/// move freely by the arrow-key axes at four pixels a frame, and the
/// character is resolved against the walls -- exactly, wherever the
/// resolver's single-contact regime pins it.
pub open spec fn run_moved_ok(pre: Game, post: Game, dir_x: i64, dir_y: i64) -> bool {
    let w = walk_spec(pre.curr_frame, pre.frame_counter, pre.frame_direction);
    let guy_pre = Guy {
        pos: Vec2i {
            x: clampp(pre.guy.pos.x + dir_x * GUY_SPEED),
            y: clampp(pre.guy.pos.y + dir_y * GUY_SPEED),
        },
        ..pre.guy
    };
    let cop_post = Guy {
        pos: Vec2i {
            x: clampp(pre.cop.pos.x + dir_x * GUY_SPEED),
            y: clampp(pre.cop.pos.y + dir_y * GUY_SPEED),
        },
        ..pre.cop
    };
    &&& post == (Game {
        guy: post.guy,
        cop: cop_post,
        curr_frame: w.0,
        frame_counter: w.1,
        frame_direction: w.2,
        ..pre
    })
    &&& post.guy == (Guy { pos: post.guy.pos, ..guy_pre })
    &&& in_pos(post.guy.pos.x) && in_pos(post.guy.pos.y)
    &&& (single_track(guy_pre.pos, runner_size(), pre.walls@, COLLISION_STEPS as nat)
        ==> post.guy.pos == resolve_steps(
        guy_pre.pos,
        runner_size(),
        pre.walls@,
        COLLISION_STEPS as nat,
    ))
    &&& ((forall|i: int|
        0 <= i < pre.walls@.len() ==> !(#[trigger] pre.walls@[i]).touches(
            char_box(guy_pre.pos, runner_size()),
        )) ==> post.guy.pos == guy_pre.pos)
    &&& (all_contacts_degenerate(char_box(guy_pre.pos, runner_size()), pre.walls@)
        ==> post.guy.pos == guy_pre.pos)
}

/// What the cars' half of a frame does, given the random outcome
/// `cars1` (the car list after its spawn phase): cars step, the fallen
/// are culled, and a coin within the sweep distance is consumed for a
/// point.
pub open spec fn road_cars_chain(pre: Game, post: Game, cars1: Seq<Sprite>) -> bool {
    let hit1 = collect_hit(pre.coins@, pre.guy.pos, DROP_OFF_DIST);
    &&& spawn_phase_ok(
        pre.cars@,
        pre.cars@,
        pre.coins@,
        pre.car_timer,
        cars1,
        post.car_timer,
        lane_cols(),
        128800,
        32,
        90,
    )
    &&& post.cars@ == cars1.map_values(|c: Sprite| c.stepped()).filter(
        |c: Sprite| c.pos.y > -800,
    )
    &&& post.coins@ == collected(pre.coins@, pre.guy.pos, DROP_OFF_DIST)
    &&& post.score == (if hit1 {
        bump_score(pre.score)
    } else {
        pre.score
    })
    &&& post.guy == pre.guy && post.cop == pre.cop
    &&& post.game_state == pre.game_state && post.game_over == pre.game_over
    &&& post.walls == pre.walls && post.camera == pre.camera
    &&& post.curr_frame == pre.curr_frame && post.frame_counter == pre.frame_counter
    &&& post.frame_direction == pre.frame_direction
    &&& post.coin_timer == pre.coin_timer
    &&& post.pavements == pre.pavements && post.pavement_timer == pre.pavement_timer
    &&& post.car_speed_multiplier == pre.car_speed_multiplier
    &&& post.coin_speed_multiplier == pre.coin_speed_multiplier
}

pub open spec fn road_cars_ok(pre: Game, post: Game) -> bool {
    exists|cars1: Seq<Sprite>| #[trigger] road_cars_chain(pre, post, cars1)
}

/// What the coins-and-scenery half of a frame does, given the random
/// outcomes `coins2` and `pavs1`: coins spawn on the curbside columns,
/// step and fall away, the pavement scrolls, and the difficulty
/// multipliers grow and scale the cars and coins one more step.
pub open spec fn road_coins_chain(
    pre: Game,
    post: Game,
    acc: u64,
    coins2: Seq<Sprite>,
    pavs1: Seq<Sprite>,
) -> bool {
    let coins3 = coins2.map_values(|c: Sprite| c.stepped()).filter(|c: Sprite| c.pos.y > -800);
    &&& spawn_phase_ok(
        pre.coins@,
        pre.cars@,
        pre.coins@,
        pre.coin_timer,
        coins2,
        post.coin_timer,
        side_cols(),
        128800,
        32,
        90,
    )
    &&& pav_phase_ok(pre.pavements@, pre.pavement_timer, pavs1, post.pavement_timer)
    &&& post.cars@ == pre.cars@.map_values(|c: Sprite| scaled_step(c, post.car_speed_multiplier))
    &&& post.coins@ == coins3.map_values(|c: Sprite| scaled_step(c, post.coin_speed_multiplier))
    &&& post.pavements@ == pavs1.map_values(|p: Sprite| p.stepped()).filter(
        |p: Sprite| p.pos.y > -64000,
    )
    &&& post.car_speed_multiplier == bumped_mult(pre.car_speed_multiplier, acc)
    &&& post.coin_speed_multiplier == bumped_mult(pre.coin_speed_multiplier, acc)
    &&& post.score == pre.score
    &&& post.guy == pre.guy && post.cop == pre.cop
    &&& post.game_state == pre.game_state && post.game_over == pre.game_over
    &&& post.walls == pre.walls && post.camera == pre.camera
    &&& post.curr_frame == pre.curr_frame && post.frame_counter == pre.frame_counter
    &&& post.frame_direction == pre.frame_direction
    &&& post.car_timer == pre.car_timer
}

pub open spec fn road_coins_ok(pre: Game, post: Game, acc: u64) -> bool {
    exists|coins2: Seq<Sprite>, pavs1: Seq<Sprite>|
        #[trigger] road_coins_chain(pre, post, acc, coins2, pavs1)
}

impl Game {
    pub open spec fn wf(self) -> bool {
        &&& in_pos(self.guy.pos.x) && in_pos(self.guy.pos.y)
        &&& in_pos(self.cop.pos.x) && in_pos(self.cop.pos.y)
        &&& forall|i: int| 0 <= i < self.walls@.len() ==> (#[trigger] self.walls@[i]).wf()
        &&& forall|i: int| 0 <= i < self.cars@.len() ==> (#[trigger] self.cars@[i]).wf()
        &&& forall|i: int| 0 <= i < self.coins@.len() ==> (#[trigger] self.coins@[i]).wf()
        &&& forall|i: int| 0 <= i < self.pavements@.len() ==> (#[trigger] self.pavements@[i]).wf()
        &&& self.car_speed_multiplier <= MULT_MAX
        &&& self.coin_speed_multiplier <= MULT_MAX
        &&& self.frame_counter < 5
        &&& self.curr_frame <= 2
        &&& (self.frame_direction == 1 || self.frame_direction == -1)
        &&& (self.curr_frame == 0 ==> self.frame_direction == 1)
        &&& (self.curr_frame == 2 ==> self.frame_direction == -1)
    }

    /// A fresh game on the title screen: the character on the center
    /// lane, the cop hidden below the floor, three walls and two
    /// pavement strips.
    pub fn new() -> (r: Game)
        ensures
            r.wf(),
            r.camera == (Camera2D {
                screen_pos: Vec2i { x: 0, y: 0 },
                screen_size: Vec2i { x: W, y: H },
            }),
            r.guy == (Guy { pos: Vec2i { x: 37866, y: GUY_Y_POS }, is_visible: true }),
            r.cop == (Guy { pos: Vec2i { x: 37866, y: (-5000) as i64 }, is_visible: false }),
            r.walls@ == seq![left_wall(), right_wall(), floor_wall()],
            r.cars@ == Seq::<Sprite>::empty(),
            r.coins@ == Seq::<Sprite>::empty(),
            r.pavements@ == initial_pavements(),
            r.car_timer == 0 && r.coin_timer == 0 && r.pavement_timer == 0,
            r.car_speed_multiplier == MULT_ONE && r.coin_speed_multiplier == MULT_ONE,
            r.score == 0,
            r.curr_frame == 0 && r.frame_counter == 0 && r.frame_direction == 1,
            !r.game_over,
            r.game_state is TitleScreen,
    {
        let camera = Camera2D {
            screen_pos: Vec2i { x: 0, y: 0 },
            screen_size: Vec2i { x: W, y: H },
        };
        let guy = Guy { pos: Vec2i { x: 37866, y: GUY_Y_POS }, is_visible: true };
        let cop = Guy { pos: Vec2i { x: 37866, y: -5000 }, is_visible: false };
        let mut walls: Vec<SPRITE> = Vec::new();
        walls.push(make_left_wall());
        walls.push(make_right_wall());
        walls.push(make_floor_wall());
        let mut pavements: Vec<Sprite> = Vec::new();
        // right pavement
        pavements.push(Sprite { pos: Vec2i { x: W - 200, y: 0 }, vel: Vec2i { x: 0, y: -100 } });
        // create a left pavement
        pavements.push(Sprite { pos: Vec2i { x: 200, y: 0 }, vel: Vec2i { x: 0, y: -100 } });
        proof {
            assert(walls@ =~= seq![left_wall(), right_wall(), floor_wall()]);
            assert(pavements@ =~= initial_pavements());
        }
        Game {
            camera,
            guy,
            cop,
            walls,
            cars: Vec::new(),
            car_timer: 0,
            coins: Vec::new(),
            coin_timer: 0,
            car_speed_multiplier: MULT_ONE,
            coin_speed_multiplier: MULT_ONE,
            pavements,
            pavement_timer: 0,
            score: 0,
            curr_frame: 0,
            frame_counter: 0,
            frame_direction: 1,
            game_over: false,
            game_state: GameState::TitleScreen,
        }
    }

    pub fn is_game_over(&self) -> (r: bool)
        ensures
            r == self.game_over,
    {
        self.game_over
    }

    /// One simulation step. `dir_x` and `dir_y` are the arrow-key axes
    /// (-1, 0 or 1).
    pub fn update(&mut self, dir_x: i64, dir_y: i64, space_pressed: bool, acc: u64)
        requires
            old(self).wf(),
            -1 <= dir_x <= 1,
            -1 <= dir_y <= 1,
        ensures
            final(self).wf(),
            old(self).game_state is TitleScreen && space_pressed ==> *final(self) == (Game {
                game_state: GameState::InGame,
                ..*old(self)
            }),
            old(self).game_state is TitleScreen && !space_pressed ==> *final(self) == *old(self),
            old(self).game_state is InGame ==> exists|m1: Game, m2: Game|
                #![trigger run_moved_ok(*old(self), m1, dir_x, dir_y), road_cars_ok(m1, m2)]
                run_moved_ok(*old(self), m1, dir_x, dir_y) && road_cars_ok(m1, m2)
                    && road_coins_ok(m2, *final(self), acc),
    {
        match self.game_state {
            GameState::TitleScreen => {
                // Check if the space bar is pressed
                if space_pressed {
                    // Transition to the in-game state
                    self.game_state = GameState::InGame;
                }
            },
            GameState::InGame => {
                self.move_runner(dir_x, dir_y);
                let ghost m1 = *self;
                self.run_cars();
                let ghost m2 = *self;
                self.run_coins(acc);
                proof {
                    assert(run_moved_ok(*old(self), m1, dir_x, dir_y) && road_cars_ok(m1, m2));
                    assert(road_coins_ok(m2, *self, acc));
                }
            },
        }
    }

    /// The character's part of a frame: walk-cycle counters, free
    /// movement on both axes (the cop mirrors it), and resolution
    /// against the walls.
    #[verifier::rlimit(100)]
    #[verifier::spinoff_prover]
    fn move_runner(&mut self, dir_x: i64, dir_y: i64)
        requires
            old(self).wf(),
            -1 <= dir_x <= 1,
            -1 <= dir_y <= 1,
        ensures
            final(self).wf(),
            run_moved_ok(*old(self), *final(self), dir_x, dir_y),
    {
        // set the speed of animation for guy
        let stepped = advance_walk_frame(self.curr_frame, self.frame_counter, self.frame_direction);
        self.curr_frame = stepped.0;
        self.frame_counter = stepped.1;
        self.frame_direction = stepped.2;
        // for continuous left or right movement
        self.guy.pos.x = clamp_pos(self.guy.pos.x as i128 + (dir_x * GUY_SPEED) as i128);
        self.cop.pos.x = clamp_pos(self.cop.pos.x as i128 + (dir_x * GUY_SPEED) as i128);
        // for continuous up or down movement
        self.guy.pos.y = clamp_pos(self.guy.pos.y as i128 + (dir_y * GUY_SPEED) as i128);
        self.cop.pos.y = clamp_pos(self.cop.pos.y as i128 + (dir_y * GUY_SPEED) as i128);
        // resolve the character against the walls
        let resolved = resolve_collisions(
            self.guy.pos,
            Vec2i { x: 3840, y: 6533 },
            &self.walls,
            COLLISION_STEPS,
        );
        self.guy.pos = resolved;
    }

    /// The cars' half of a frame: car spawning and movement, the fallen
    /// cars culled, and the coin sweep.
    #[verifier::rlimit(100)]
    #[verifier::spinoff_prover]
    fn run_cars(&mut self)
        requires
            old(self).wf(),
        ensures
            final(self).wf(),
            road_cars_ok(*old(self), *final(self)),
    {
        let possible_values: Vec<i64> = lane_columns();
        // spawn new cars
        if self.car_timer > 0 {
            self.car_timer = self.car_timer - 1;
        } else if self.cars.len() < 32 {
            match spawn_position(&possible_values, H + 800, &self.cars, &self.coins) {
                Some(p) => {
                    self.cars.push(Sprite { pos: p, vel: Vec2i { x: 0, y: -200 } });
                    self.car_timer = rand_range_u32(30, 90);
                },
                None => {
                    // every lane blocked: try again next frame
                },
            }
        }
        let ghost cars1 = self.cars@;
        proof {
            assert(spawn_phase_ok(
                old(self).cars@,
                old(self).cars@,
                old(self).coins@,
                old(self).car_timer,
                cars1,
                self.car_timer,
                lane_cols(),
                128800,
                32,
                90,
            ));
        }
        // update car positions every frame
        step_all(&mut self.cars);
        // between frames, keep the cars still on the screen
        retain_above(&mut self.cars, -800);
        // if a coin is within the catch distance, add one to the score
        let got = consume_first_within(&mut self.coins, self.guy.pos, DROP_OFF_DIST);
        if got.is_some() && self.score < u32::MAX {
            self.score = self.score + 1;
        }
        proof {
            assert(road_cars_chain(*old(self), *self, cars1));
        }
    }

    /// The coins-and-scenery half of a frame: coin spawning on the
    /// curbside columns, coin movement, the scrolling pavement and the
    /// difficulty ramp.
    #[verifier::rlimit(100)]
    #[verifier::spinoff_prover]
    fn run_coins(&mut self, acc: u64)
        requires
            old(self).wf(),
        ensures
            final(self).wf(),
            road_coins_ok(*old(self), *final(self), acc),
    {
        let side_values: Vec<i64> = side_columns();
        // Spawn new coins
        if self.coin_timer > 0 {
            self.coin_timer = self.coin_timer - 1;
        } else if self.coins.len() < 32 {
            match spawn_position(&side_values, H + 800, &self.cars, &self.coins) {
                Some(p) => {
                    self.coins.push(Sprite { pos: p, vel: Vec2i { x: 0, y: -200 } });
                    self.coin_timer = rand_range_u32(30, 90);
                },
                None => {},
            }
        }
        let ghost coins2 = self.coins@;
        proof {
            assert(spawn_phase_ok(
                old(self).coins@,
                old(self).cars@,
                old(self).coins@,
                old(self).coin_timer,
                coins2,
                self.coin_timer,
                side_cols(),
                128800,
                32,
                90,
            ));
        }
        // Update coins
        step_all(&mut self.coins);
        retain_above(&mut self.coins, -800);
        // Spawn new pavements
        if self.pavement_timer > 0 {
            self.pavement_timer = self.pavement_timer - 1;
        } else if self.pavements.len() < 33 && self.pavements.len() >= 2 {
            let newest_right_idx = self.pavements.len() - 2;
            let newest_left_idx = self.pavements.len() - 1;
            // create a right pavement one window height above the newest
            let right_y = clamp_pos(self.pavements[newest_right_idx].pos.y as i128 + H as i128);
            self.pavements.push(
                Sprite { pos: Vec2i { x: W - 200, y: right_y }, vel: Vec2i { x: 0, y: -100 } },
            );
            // create a left pavement
            let left_y = clamp_pos(self.pavements[newest_left_idx].pos.y as i128 + H as i128);
            self.pavements.push(
                Sprite { pos: Vec2i { x: 200, y: left_y }, vel: Vec2i { x: 0, y: -100 } },
            );
            self.pavement_timer = rand_range_u32(30, 90);
        }
        let ghost pavs1 = self.pavements@;
        proof {
            assert(pav_phase_ok(
                old(self).pavements@,
                old(self).pavement_timer,
                pavs1,
                self.pavement_timer,
            ));
        }
        // Update pavements
        step_all(&mut self.pavements);
        retain_above(&mut self.pavements, -(H / 2));
        // Increase speed multipliers over time
        self.car_speed_multiplier = bump_multiplier(self.car_speed_multiplier, acc);
        self.coin_speed_multiplier = bump_multiplier(self.coin_speed_multiplier, acc);
        // Update cars and coins with increased speed
        step_all_scaled(&mut self.cars, self.car_speed_multiplier);
        step_all_scaled(&mut self.coins, self.coin_speed_multiplier);
        proof {
            assert(road_coins_chain(*old(self), *self, acc, coins2, pavs1));
        }
    }

    /// Lays the in-game scene out for the renderer: the background, the
    /// walls, the animated character, then every pavement strip, car
    /// and coin; the score text follows these. This variant never draws
    /// its cop.
    #[verifier::rlimit(100)]
    #[verifier::spinoff_prover]
    pub fn render_layout(&self) -> (r: Vec<(Transform, SheetRegion)>)
        requires
            self.wf(),
        ensures
            r@ == road_scene_slots(*self),
    {
        let mut out: Vec<(Transform, SheetRegion)> = Vec::new();
        // set bg image
        out.push(
            (
                Transform::from(
                    SPRITE { center: Vec2i { x: 38400, y: 64000 }, size: Vec2i { x: W, y: H } },
                ),
                SheetRegion::new(0, 0, 0, 16, 640, 480),
            ),
        );
        // set walls
        let mut i: usize = 0;
        while i < self.walls.len()
            invariant
                self.wf(),
                i <= self.walls@.len(),
                out@ == seq![(bg_slot())] + wall_slots(self.walls@.take(i as int)),
            decreases self.walls@.len() - i,
        {
            let w = self.walls[i];
            out.push((Transform::from(w), SheetRegion::new(0, 0, 480, 12, 8, 8)));
            proof {
                assert(self.walls@.take(i + 1) =~= self.walls@.take(i as int).push(
                    self.walls@[i as int],
                ));
                assert(out@ =~= seq![(bg_slot())] + wall_slots(self.walls@.take(i + 1)));
            }
            i += 1;
        }
        proof {
            assert(self.walls@.take(self.walls@.len() as int) =~= self.walls@);
        }
        // set guy, animated by the walk cycle
        let ones_place = self.curr_frame % 10;
        let mut guy_uv = SheetRegion::new(0, 100, 498, 1, 14, 18);
        crate::sprites::animate_char(
            &ones_place,
            &mut guy_uv,
            0,
            [100, 498, 114, 480, 114, 498],
            1,
            14,
            18,
        );
        out.push(
            (
                Transform::from(
                    SPRITE { center: self.guy.pos, size: Vec2i { x: 3840, y: 6533 } },
                ),
                guy_uv,
            ),
        );
        let ghost head = seq![(bg_slot())] + wall_slots(self.walls@) + seq![
            guy_slot(self.guy.pos, self.curr_frame),
        ];
        proof {
            assert(out@ =~= head);
        }
        // set pavement
        let mut i: usize = 0;
        while i < self.pavements.len()
            invariant
                self.wf(),
                i <= self.pavements@.len(),
                out@ == head + pavement_slots(self.pavements@.take(i as int)),
                head == seq![(bg_slot())] + wall_slots(self.walls@) + seq![
                    guy_slot(self.guy.pos, self.curr_frame),
                ],
            decreases self.pavements@.len() - i,
        {
            let p = self.pavements[i];
            out.push(
                (
                    Transform::from(SPRITE { center: p.pos, size: Vec2i { x: 30000, y: H } }),
                    SheetRegion::new(0, 640, 0, 5, 45, 748),
                ),
            );
            proof {
                assert(self.pavements@.take(i + 1) =~= self.pavements@.take(i as int).push(
                    self.pavements@[i as int],
                ));
                assert(out@ =~= head + pavement_slots(self.pavements@.take(i + 1)));
            }
            i += 1;
        }
        proof {
            assert(self.pavements@.take(self.pavements@.len() as int) =~= self.pavements@);
        }
        let ghost head2 = head + pavement_slots(self.pavements@);
        // set car
        let mut i: usize = 0;
        while i < self.cars.len()
            invariant
                self.wf(),
                i <= self.cars@.len(),
                out@ == head2 + car_slots(self.cars@.take(i as int)),
                head2 == seq![(bg_slot())] + wall_slots(self.walls@) + seq![
                    guy_slot(self.guy.pos, self.curr_frame),
                ] + pavement_slots(self.pavements@),
            decreases self.cars@.len() - i,
        {
            let c = self.cars[i];
            out.push(
                (
                    Transform::from(SPRITE { center: c.pos, size: Vec2i { x: 3840, y: 6533 } }),
                    SheetRegion::new(0, 27, 525, 3, 27, 32),
                ),
            );
            proof {
                assert(self.cars@.take(i + 1) =~= self.cars@.take(i as int).push(
                    self.cars@[i as int],
                ));
                assert(out@ =~= head2 + car_slots(self.cars@.take(i + 1)));
            }
            i += 1;
        }
        proof {
            assert(self.cars@.take(self.cars@.len() as int) =~= self.cars@);
        }
        let ghost head3 = head2 + car_slots(self.cars@);
        // set coin
        let mut i: usize = 0;
        while i < self.coins.len()
            invariant
                self.wf(),
                i <= self.coins@.len(),
                out@ == head3 + coin_slots(self.coins@.take(i as int)),
                head3 == seq![(bg_slot())] + wall_slots(self.walls@) + seq![
                    guy_slot(self.guy.pos, self.curr_frame),
                ] + pavement_slots(self.pavements@) + car_slots(self.cars@),
            decreases self.coins@.len() - i,
        {
            let c = self.coins[i];
            out.push(
                (
                    Transform::from(SPRITE { center: c.pos, size: Vec2i { x: 3300, y: 3800 } }),
                    SheetRegion::new(0, 20, 480, 2, 16, 16),
                ),
            );
            proof {
                assert(self.coins@.take(i + 1) =~= self.coins@.take(i as int).push(
                    self.coins@[i as int],
                ));
                assert(out@ =~= head3 + coin_slots(self.coins@.take(i + 1)));
            }
            i += 1;
        }
        proof {
            assert(self.coins@.take(self.coins@.len() as int) =~= self.coins@);
            assert(out@ =~= road_scene_slots(*self));
        }
        out
    }
}

/// What this variant's in-game scene renders at each sprite slot.
pub open spec fn road_scene_slots(g: Game) -> Seq<(Transform, SheetRegion)> {
    seq![(bg_slot())] + wall_slots(g.walls@) + seq![guy_slot(g.guy.pos, g.curr_frame)]
        + pavement_slots(g.pavements@) + car_slots(g.cars@) + coin_slots(g.coins@)
}

} // verus!
