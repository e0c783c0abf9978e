//! The jump-over-obstacle variant: the character walks three lanes of a
//! scrolling highway, jumps over oncoming cars, collects coins, and is
//! chased by a cop after a near miss. Title screen, play and game-over
//! are the three states of the flow machine.

use vstd::prelude::*;
use crate::geom::{clamp_pos, clampp, in_coord, in_pos, Vec2i, SPRITE};
use crate::level::{
    floor_wall, initial_pavements, lane_cols, lane_columns, left_wall, make_floor_wall,
    make_left_wall, make_right_wall, right_wall,
};
use crate::render::{
    bg_slot, car_slots, coin_slots, cop_slot, guy_slot, pavement_slots, wall_slots, Camera2D,
    Transform,
};
use crate::rng::rand_range_u32;
use crate::spawn::{
    collect_hit, collected, consume_first_within, dist_sq, first_within, spawn_phase_ok,
    spawn_position, COLLISION_DISTANCE,
};
use crate::sprites::{
    advance_walk_frame, all_contacts_degenerate, animate_char, bump_multiplier, bump_score,
    bumped_mult, char_box, pav_phase_ok, resolve_collisions, resolve_steps, retain_above,
    scaled_step, single_track, step_all, step_all_scaled, walk_spec, SheetRegion, Sprite, MULT_MAX,
    MULT_ONE,
};

verus! {

/// Window width in fixed-point hundredths: 768 pixels.
pub const W: i64 = 76800;

/// Window height in fixed-point hundredths: 1280 pixels.
pub const H: i64 = 128000;

/// A car this close brushes the character and calls the cop: 42 pixels.
pub const COP_DISTANCE: i64 = 4200;

/// Resolver passes per frame.
pub const COLLISION_STEPS: usize = 3;

/// The character's resting height: 24 pixels up.
pub const GUY_Y_POS: i64 = 2400;

#[derive(Clone, Copy, PartialEq, Eq, Structural, Debug)]
pub enum GameState {
    TitleScreen,
    InGame,
    GameOver,
}

/// The walking character (and the cop who chases it): position plus the
/// jump animation's state.
#[derive(Clone, Copy, PartialEq, Eq, Structural, Debug)]
pub struct Guy {
    pub pos: Vec2i,
    pub is_jumping: bool,
    pub jump_velocity: i64,
    pub fwd_jump_frames: usize,
    pub is_visible: bool,
}

pub struct Game {
    pub camera: Camera2D,
    pub walls: Vec<SPRITE>,
    pub guy: Guy,
    pub cop: Guy,
    pub cars: Vec<Sprite>,
    pub car_timer: u32,
    pub car_speed_multiplier: u64,
    pub coin_speed_multiplier: u64,
    pub coins: Vec<Sprite>,
    pub coin_timer: u32,
    pub pavements: Vec<Sprite>,
    pub pavement_timer: u32,
    pub score: u32,
    pub curr_frame: usize,
    pub frame_counter: usize,
    pub frame_direction: i64,
    pub game_over: bool,
    pub game_state: GameState,
}

/// The jump bookkeeping stays coupled: at rest the velocity is 10 pixels
/// a frame and the frame count zero; in the air the velocity has lost a
/// fifth of a pixel for each of the first twelve frames flown.
pub open spec fn jump_ok(g: Guy) -> bool {
    &&& (!g.is_jumping ==> g.fwd_jump_frames == 0 && g.jump_velocity == 1000)
    &&& (g.is_jumping ==> g.fwd_jump_frames >= 1 && g.jump_velocity == 1000 - 20 * (
    if g.fwd_jump_frames <= 12 {
        g.fwd_jump_frames as int
    } else {
        12
    }))
}

/// The character's box in this variant: 38.4 x 65.33 pixels.
pub open spec fn guy_size() -> Vec2i {
    Vec2i { x: 3840, y: 6533 }
}

/// One frame of jump physics, exactly as `jump_frame` computes it: a
/// fresh press starts a jump; twelve powered frames climb by a decaying
/// velocity, then a fixed descent until the landing height resets the
/// jump; while the character is airborne the visible cop's countdown
/// runs, and an expired cop sinks away.
pub open spec fn jump_spec(guy: Guy, cop: Guy, up: bool) -> (Guy, Guy) {
    let g0 = if up && !guy.is_jumping {
        Guy { is_jumping: true, ..guy }
    } else {
        guy
    };
    if g0.is_jumping {
        let f = if g0.fwd_jump_frames == usize::MAX {
            g0.fwd_jump_frames
        } else {
            (g0.fwd_jump_frames + 1) as usize
        };
        let g1 = Guy { fwd_jump_frames: f, ..g0 };
        let g2 = if f <= 12 {
            Guy {
                pos: Vec2i { x: g1.pos.x, y: clampp(g1.pos.y + g1.jump_velocity) },
                jump_velocity: (g1.jump_velocity - 20) as i64,
                ..g1
            }
        } else if g1.pos.y >= 5000 {
            Guy { pos: Vec2i { x: g1.pos.x, y: (g1.pos.y - 230) as i64 }, ..g1 }
        } else {
            Guy {
                is_jumping: false,
                fwd_jump_frames: 0,
                pos: Vec2i { x: g1.pos.x, y: 5000 },
                jump_velocity: 1000,
                ..g1
            }
        };
        let c1 = if cop.is_visible && cop.fwd_jump_frames <= 100 {
            Guy { fwd_jump_frames: (cop.fwd_jump_frames + 1) as usize, ..cop }
        } else {
            cop
        };
        let c2 = if c1.fwd_jump_frames > 100 && c1.pos.y >= 0 {
            Guy { pos: Vec2i { x: c1.pos.x, y: (c1.pos.y - 100) as i64 }, ..c1 }
        } else if c1.pos.y < 0 && c1.is_visible {
            Guy {
                fwd_jump_frames: 0,
                is_visible: false,
                pos: Vec2i { x: c1.pos.x, y: (-5000) as i64 },
                ..c1
            }
        } else {
            c1
        };
        (g2, c2)
    } else {
        (g0, cop)
    }
}

/// What one `move_character` call does: the walk cycle ticks, jump
/// physics runs, both figures step to the lane column the keys pick, and
/// the character is resolved against the walls -- exactly, wherever the
/// resolver's single-contact regime pins it.
pub open spec fn moved_ok(pre: Game, post: Game, left: bool, right: bool, up: bool) -> bool {
    let w = walk_spec(pre.curr_frame, pre.frame_counter, pre.frame_direction);
    let j = jump_spec(pre.guy, pre.cop, up);
    let dir: int = if left {
        -1
    } else if right {
        1
    } else {
        0
    };
    let col = lane_target(lane_cols(), pre.guy.pos.x, dir);
    let guy_pre = Guy { pos: Vec2i { x: col, y: j.0.pos.y }, ..j.0 };
    let cop_post = Guy { pos: Vec2i { x: col, y: j.1.pos.y }, ..j.1 };
    &&& post == (Game {
        guy: post.guy,
        cop: cop_post,
        curr_frame: w.0,
        frame_counter: w.1,
        frame_direction: w.2,
        ..pre
    })
    &&& post.guy == (Guy { pos: post.guy.pos, ..guy_pre })
    &&& in_pos(post.guy.pos.x) && in_pos(post.guy.pos.y)
    &&& (single_track(guy_pre.pos, guy_size(), pre.walls@, COLLISION_STEPS as nat) ==> post.guy.pos
        == resolve_steps(guy_pre.pos, guy_size(), pre.walls@, COLLISION_STEPS as nat))
    &&& ((forall|i: int|
        0 <= i < pre.walls@.len() ==> !(#[trigger] pre.walls@[i]).touches(
            char_box(guy_pre.pos, guy_size()),
        )) ==> post.guy.pos == guy_pre.pos)
    &&& (all_contacts_degenerate(char_box(guy_pre.pos, guy_size()), pre.walls@) ==> post.guy.pos
        == guy_pre.pos)
}

/// What the car-proximity cascade does to a frame: a car within the
/// catch distance of the walking character ends the game; failing that,
/// a car within the cop distance summons the cop (lifting the character
/// a hundred pixels) or, with the cop already long on the scene, sets
/// the terminal flag; a jumping character is ignored entirely.
pub open spec fn hero_catch(guy: Guy, cop: Guy, state: GameState, over: bool, cars: Seq<Sprite>) -> (
    Guy,
    Guy,
    GameState,
    bool,
) {
    if !guy.is_jumping {
        if exists|i: int|
            0 <= i < cars.len() && dist_sq(guy.pos, (#[trigger] cars[i]).pos) <= COLLISION_DISTANCE
                * COLLISION_DISTANCE {
            (guy, cop, GameState::GameOver, over)
        } else if exists|i: int|
            0 <= i < cars.len() && dist_sq(guy.pos, (#[trigger] cars[i]).pos) <= COP_DISTANCE
                * COP_DISTANCE {
            if !cop.is_visible {
                (
                    Guy { pos: Vec2i { x: guy.pos.x, y: (GUY_Y_POS + 10000) as i64 }, ..guy },
                    Guy { is_visible: true, pos: Vec2i { x: cop.pos.x, y: GUY_Y_POS }, ..cop },
                    state,
                    over,
                )
            } else if cop.fwd_jump_frames > 50 {
                (guy, cop, state, true)
            } else {
                (guy, cop, state, over)
            }
        } else {
            (guy, cop, state, over)
        }
    } else {
        (guy, cop, state, over)
    }
}

/// What the cars' half of a frame does, given the random outcome
/// `cars1` (the car list after its spawn phase): cars step, the
/// proximity cascade runs, fallen cars are culled, and a coin within
/// reach of the (possibly lifted) character is consumed for a point.
pub open spec fn cars_chain(pre: Game, post: Game, cars1: Seq<Sprite>) -> bool {
    let cars2 = cars1.map_values(|c: Sprite| c.stepped());
    let caught = hero_catch(pre.guy, pre.cop, pre.game_state, pre.game_over, cars2);
    let hit1 = collect_hit(pre.coins@, caught.0.pos, COLLISION_DISTANCE);
    &&& spawn_phase_ok(
        pre.cars@,
        pre.cars@,
        pre.coins@,
        pre.car_timer,
        cars1,
        post.car_timer,
        lane_cols(),
        128800,
        32,
        90,
    )
    &&& post.cars@ == cars2.filter(|c: Sprite| c.pos.y > -800)
    &&& post.coins@ == collected(pre.coins@, caught.0.pos, COLLISION_DISTANCE)
    &&& post.guy == caught.0 && post.cop == caught.1
    &&& post.game_state == caught.2 && post.game_over == caught.3
    &&& post.score == (if hit1 {
        bump_score(pre.score)
    } else {
        pre.score
    })
    &&& post.walls == pre.walls && post.camera == pre.camera
    &&& post.curr_frame == pre.curr_frame && post.frame_counter == pre.frame_counter
    &&& post.frame_direction == pre.frame_direction
    &&& post.coin_timer == pre.coin_timer
    &&& post.pavements == pre.pavements && post.pavement_timer == pre.pavement_timer
    &&& post.car_speed_multiplier == pre.car_speed_multiplier
    &&& post.coin_speed_multiplier == pre.coin_speed_multiplier
}

/// What the cars' half of a frame does, for some value of its random
/// draws.
pub open spec fn cars_phase_ok(pre: Game, post: Game) -> bool {
    exists|cars1: Seq<Sprite>| #[trigger] cars_chain(pre, post, cars1)
}

/// What the coins-and-scenery half of a frame does, given the random
/// outcomes `coins2` (the coin list after its spawn phase) and `pavs1`
/// (the pavement list after its): coins step and fall away, the
/// difficulty multipliers grow and scale the cars and coins one more
/// step, the pavement scrolls, and a second coin sweep rings the chime.
pub open spec fn coins_chain(
    pre: Game,
    post: Game,
    acc: u64,
    sound: bool,
    coins2: Seq<Sprite>,
    pavs1: Seq<Sprite>,
) -> bool {
    let coins3 = coins2.map_values(|c: Sprite| c.stepped()).filter(|c: Sprite| c.pos.y > -800);
    let coins4 = coins3.map_values(|c: Sprite| scaled_step(c, post.coin_speed_multiplier));
    let hit2 = collect_hit(coins4, pre.guy.pos, COLLISION_DISTANCE);
    &&& spawn_phase_ok(
        pre.coins@,
        pre.cars@,
        pre.coins@,
        pre.coin_timer,
        coins2,
        post.coin_timer,
        lane_cols(),
        128800,
        32,
        90,
    )
    &&& pav_phase_ok(pre.pavements@, pre.pavement_timer, pavs1, post.pavement_timer)
    &&& post.cars@ == pre.cars@.map_values(|c: Sprite| scaled_step(c, post.car_speed_multiplier))
    &&& post.coins@ == collected(coins4, pre.guy.pos, COLLISION_DISTANCE)
    &&& post.pavements@ == pavs1.map_values(|p: Sprite| p.stepped()).filter(
        |p: Sprite| p.pos.y > -64000,
    )
    &&& post.car_speed_multiplier == bumped_mult(pre.car_speed_multiplier, acc)
    &&& post.coin_speed_multiplier == bumped_mult(pre.coin_speed_multiplier, acc)
    &&& post.score == (if hit2 {
        bump_score(pre.score)
    } else {
        pre.score
    })
    &&& sound == hit2
    &&& post.guy == pre.guy && post.cop == pre.cop
    &&& post.game_state == pre.game_state && post.game_over == pre.game_over
    &&& post.walls == pre.walls && post.camera == pre.camera
    &&& post.curr_frame == pre.curr_frame && post.frame_counter == pre.frame_counter
    &&& post.frame_direction == pre.frame_direction
    &&& post.car_timer == pre.car_timer
}

/// What the coins-and-scenery half of a frame does, for some value of
/// its random draws.
pub open spec fn coin_phase_ok(pre: Game, post: Game, acc: u64, sound: bool) -> bool {
    exists|coins2: Seq<Sprite>, pavs1: Seq<Sprite>|
        #[trigger] coins_chain(pre, post, acc, sound, coins2, pavs1)
}

impl Game {
    pub open spec fn wf(self) -> bool {
        &&& in_pos(self.guy.pos.x) && in_pos(self.guy.pos.y)
        &&& in_pos(self.cop.pos.x) && in_pos(self.cop.pos.y)
        &&& jump_ok(self.guy)
        &&& self.cop.fwd_jump_frames <= 101
        &&& forall|i: int| 0 <= i < self.walls@.len() ==> (#[trigger] self.walls@[i]).wf()
        &&& forall|i: int| 0 <= i < self.cars@.len() ==> (#[trigger] self.cars@[i]).wf()
        &&& forall|i: int| 0 <= i < self.coins@.len() ==> (#[trigger] self.coins@[i]).wf()
        &&& forall|i: int| 0 <= i < self.pavements@.len() ==> (#[trigger] self.pavements@[i]).wf()
        &&& self.car_speed_multiplier <= MULT_MAX
        &&& self.coin_speed_multiplier <= MULT_MAX
        &&& self.frame_counter < 5
        &&& self.curr_frame <= 2
        &&& (self.frame_direction == 1 || self.frame_direction == -1)
        &&& (self.curr_frame == 0 ==> self.frame_direction == 1)
        &&& (self.curr_frame == 2 ==> self.frame_direction == -1)
    }

    /// A fresh game on the title screen: the character at rest on the
    /// center lane, the cop hidden below the floor, three walls (left,
    /// right, floor), two pavement strips, and every counter at its
    /// start.
    pub fn new() -> (r: Game)
        ensures
            r.wf(),
            r.camera == (Camera2D {
                screen_pos: Vec2i { x: 0, y: 0 },
                screen_size: Vec2i { x: W, y: H },
            }),
            r.guy == (Guy {
                pos: Vec2i { x: 37866, y: GUY_Y_POS },
                is_jumping: false,
                jump_velocity: 1000,
                fwd_jump_frames: 0,
                is_visible: true,
            }),
            r.cop == (Guy {
                pos: Vec2i { x: 37866, y: (-5000) as i64 },
                is_jumping: false,
                jump_velocity: 1000,
                fwd_jump_frames: 0,
                is_visible: false,
            }),
            r.walls@ == seq![left_wall(), right_wall(), floor_wall()],
            r.cars@ == Seq::<Sprite>::empty(),
            r.coins@ == Seq::<Sprite>::empty(),
            r.pavements@ == initial_pavements(),
            r.car_timer == 0 && r.coin_timer == 0 && r.pavement_timer == 0,
            r.car_speed_multiplier == MULT_ONE && r.coin_speed_multiplier == MULT_ONE,
            r.score == 0,
            r.curr_frame == 0 && r.frame_counter == 0 && r.frame_direction == 1,
            !r.game_over,
            r.game_state is TitleScreen,
    {
        let camera = Camera2D {
            screen_pos: Vec2i { x: 0, y: 0 },
            screen_size: Vec2i { x: W, y: H },
        };
        let guy = Guy {
            pos: Vec2i { x: 37866, y: GUY_Y_POS },
            is_jumping: false,
            jump_velocity: 1000,
            fwd_jump_frames: 0,
            is_visible: true,
        };
        let cop = Guy {
            pos: Vec2i { x: 37866, y: -5000 },
            is_jumping: false,
            jump_velocity: 1000,
            fwd_jump_frames: 0,
            is_visible: false,
        };
        let mut walls: Vec<SPRITE> = Vec::new();
        walls.push(make_left_wall());
        walls.push(make_right_wall());
        walls.push(make_floor_wall());
        let mut pavements: Vec<Sprite> = Vec::new();
        // right pavement
        pavements.push(Sprite { pos: Vec2i { x: W - 200, y: 0 }, vel: Vec2i { x: 0, y: -100 } });
        // create a left pavement
        pavements.push(Sprite { pos: Vec2i { x: 200, y: 0 }, vel: Vec2i { x: 0, y: -100 } });
        proof {
            assert(walls@ =~= seq![left_wall(), right_wall(), floor_wall()]);
            assert(pavements@ =~= initial_pavements());
        }
        Game {
            camera,
            guy,
            cop,
            walls,
            cars: Vec::new(),
            car_timer: 0,
            coins: Vec::new(),
            coin_timer: 0,
            car_speed_multiplier: MULT_ONE,
            coin_speed_multiplier: MULT_ONE,
            pavements,
            pavement_timer: 0,
            score: 0,
            curr_frame: 0,
            frame_counter: 0,
            frame_direction: 1,
            game_over: false,
            game_state: GameState::TitleScreen,
        }
    }

    pub fn is_game_over(&self) -> (r: bool)
        ensures
            r == self.game_over,
    {
        self.game_over
    }

    /// One simulation step. On the title screen only the start key
    /// matters; after the end nothing changes; in play the frame runs
    /// walk animation, jump physics, lane stepping, wall resolution,
    /// spawning, catches, pickups, scrolling and the difficulty ramp.
    /// Returns whether a coin pickup should ring the chime.
    pub fn update(
        &mut self,
        left_pressed: bool,
        right_pressed: bool,
        up_pressed: bool,
        space_pressed: bool,
        acc: u64,
    ) -> (coin_sound: bool)
        requires
            old(self).wf(),
        ensures
            final(self).wf(),
            old(self).game_state is TitleScreen && space_pressed ==> *final(self) == (Game {
                game_state: GameState::InGame,
                ..*old(self)
            }),
            old(self).game_state is TitleScreen && !space_pressed ==> *final(self) == *old(self),
            old(self).game_state is TitleScreen ==> !coin_sound,
            old(self).game_state is GameOver ==> *final(self) == *old(self) && !coin_sound,
            old(self).game_state is InGame ==> exists|m1: Game, m2: Game|
                #![trigger moved_ok(*old(self), m1, left_pressed, right_pressed, up_pressed), cars_phase_ok(m1, m2)]
                moved_ok(*old(self), m1, left_pressed, right_pressed, up_pressed) && cars_phase_ok(
                    m1,
                    m2,
                ) && coin_phase_ok(m2, *final(self), acc, coin_sound),
    {
        match self.game_state {
            GameState::TitleScreen => {
                // Check if the space bar is pressed
                if space_pressed {
                    // Transition to the in-game state
                    self.game_state = GameState::InGame;
                }
                false
            },
            GameState::GameOver => { false },
            GameState::InGame => {
                self.move_character(left_pressed, right_pressed, up_pressed);
                let ghost m1 = *self;
                self.run_cars();
                let ghost m2 = *self;
                let coin_sound = self.run_coins(acc);
                proof {
                    assert(moved_ok(*old(self), m1, left_pressed, right_pressed, up_pressed)
                        && cars_phase_ok(m1, m2));
                    assert(coin_phase_ok(m2, *self, acc, coin_sound));
                }
                coin_sound
            },
        }
    }

    /// The character's part of a frame: walk animation, jump physics,
    /// one lane step left or right, and resolution against the walls.
    /// Nothing else of the game changes.
    #[verifier::rlimit(100)]
    #[verifier::spinoff_prover]
    fn move_character(&mut self, left_pressed: bool, right_pressed: bool, up_pressed: bool)
        requires
            old(self).wf(),
        ensures
            final(self).wf(),
            moved_ok(*old(self), *final(self), left_pressed, right_pressed, up_pressed),
    {
        // set the speed of animation for guy
        let stepped = advance_walk_frame(
            self.curr_frame,
            self.frame_counter,
            self.frame_direction,
        );
        self.curr_frame = stepped.0;
        self.frame_counter = stepped.1;
        self.frame_direction = stepped.2;
        // column values
        let possible_values: Vec<i64> = lane_columns();
        let mut curr_col = self.guy.pos.x;
        let position = lane_index(&possible_values, curr_col);
        let curr_index: i64 = match position {
            Some(i) => i as i64,
            None => 0,
        };
        // for left or right movement in lane steps
        let mut dir: i64 = 0;
        if left_pressed {
            dir = -1;
        } else if right_pressed {
            dir = 1;
        }
        // jump physics for the character, descent for the cop
        let jumped = jump_frame(self.guy, self.cop, up_pressed);
        self.guy = jumped.0;
        self.cop = jumped.1;
        // step one lane over, staying on the board
        if -1 < curr_index + dir && curr_index + dir < 3 {
            curr_col = possible_values[(curr_index + dir) as usize];
        }
        // update character's column
        self.guy.pos.x = curr_col;
        self.cop.pos.x = curr_col;
        // resolve the character against the walls
        let resolved = resolve_collisions(
            self.guy.pos,
            Vec2i { x: 3840, y: 6533 },
            &self.walls,
            COLLISION_STEPS,
        );
        self.guy.pos = resolved;
    }

    /// The cars' half of a frame: car spawning and movement, the car
    /// catches (game over or the cop), the fallen cars culled, and the
    /// first coin sweep.
    #[verifier::rlimit(100)]
    #[verifier::spinoff_prover]
    fn run_cars(&mut self)
        requires
            old(self).wf(),
        ensures
            final(self).wf(),
            cars_phase_ok(*old(self), *final(self)),
    {
        let possible_values: Vec<i64> = lane_columns();
        // spawn new cars
        if self.car_timer > 0 {
            self.car_timer = self.car_timer - 1;
        } else if self.cars.len() < 32 {
            match spawn_position(&possible_values, H + 800, &self.cars, &self.coins) {
                Some(p) => {
                    self.cars.push(Sprite { pos: p, vel: Vec2i { x: 0, y: -200 } });
                    self.car_timer = rand_range_u32(30, 90);
                },
                None => {
                    // every lane blocked: try again next frame
                },
            }
        }
        let ghost cars1 = self.cars@;
        proof {
            assert(spawn_phase_ok(
                old(self).cars@,
                old(self).cars@,
                old(self).coins@,
                old(self).car_timer,
                cars1,
                self.car_timer,
                lane_cols(),
                128800,
                32,
                90,
            ));
        }
        // update car positions every frame
        step_all(&mut self.cars);
        // if any car is within the catch distance of the guy, mark a collision
        if !self.guy.is_jumping {
            let hit = first_within(&self.cars, self.guy.pos, COLLISION_DISTANCE);
            if hit.is_some() {
                self.game_state = GameState::GameOver;
            } else {
                let near = first_within(&self.cars, self.guy.pos, COP_DISTANCE);
                if near.is_some() {
                    if !self.cop.is_visible {
                        self.cop.is_visible = true;
                        self.guy.pos.y = GUY_Y_POS + 10000;
                        self.cop.pos.y = GUY_Y_POS;
                    } else if self.cop.fwd_jump_frames > 50 {
                        // the cop has been close for too long
                        self.game_over = true;
                    }
                }
            }
        }
        proof {
            let cars2 = cars1.map_values(|c: Sprite| c.stepped());
            let caught = hero_catch(
                old(self).guy,
                old(self).cop,
                old(self).game_state,
                old(self).game_over,
                cars2,
            );
            assert(self.guy == caught.0 && self.cop == caught.1 && self.game_state == caught.2
                && self.game_over == caught.3);
        }
        // between frames, keep the cars still on the screen
        retain_above(&mut self.cars, -800);
        // if a coin is within the catch distance, add one to the score
        let got = consume_first_within(&mut self.coins, self.guy.pos, COLLISION_DISTANCE);
        if got.is_some() && self.score < u32::MAX {
            self.score = self.score + 1;
        }
        proof {
            assert(cars_chain(*old(self), *self, cars1));
        }
    }

    /// The coins-and-scenery half of a frame: coin spawning and
    /// movement, the scrolling pavement, the difficulty ramp, and the
    /// second coin sweep that rings the chime.
    #[verifier::rlimit(100)]
    #[verifier::spinoff_prover]
    fn run_coins(&mut self, acc: u64) -> (coin_sound: bool)
        requires
            old(self).wf(),
        ensures
            final(self).wf(),
            coin_phase_ok(*old(self), *final(self), acc, coin_sound),
    {
        let possible_values: Vec<i64> = lane_columns();
        // Spawn new coins
        if self.coin_timer > 0 {
            self.coin_timer = self.coin_timer - 1;
        } else if self.coins.len() < 32 {
            match spawn_position(&possible_values, H + 800, &self.cars, &self.coins) {
                Some(p) => {
                    self.coins.push(Sprite { pos: p, vel: Vec2i { x: 0, y: -200 } });
                    self.coin_timer = rand_range_u32(30, 90);
                },
                None => {},
            }
        }
        let ghost coins2 = self.coins@;
        proof {
            assert(spawn_phase_ok(
                old(self).coins@,
                old(self).cars@,
                old(self).coins@,
                old(self).coin_timer,
                coins2,
                self.coin_timer,
                lane_cols(),
                128800,
                32,
                90,
            ));
        }
        // Update coins
        step_all(&mut self.coins);
        retain_above(&mut self.coins, -800);
        // Spawn new pavements
        if self.pavement_timer > 0 {
            self.pavement_timer = self.pavement_timer - 1;
        } else if self.pavements.len() < 33 && self.pavements.len() >= 2 {
            let newest_right_idx = self.pavements.len() - 2;
            let newest_left_idx = self.pavements.len() - 1;
            // create a right pavement one window height above the newest
            let right_y = clamp_pos(
                self.pavements[newest_right_idx].pos.y as i128 + H as i128,
            );
            self.pavements.push(
                Sprite { pos: Vec2i { x: W - 200, y: right_y }, vel: Vec2i { x: 0, y: -100 } },
            );
            // create a left pavement
            let left_y = clamp_pos(
                self.pavements[newest_left_idx].pos.y as i128 + H as i128,
            );
            self.pavements.push(
                Sprite { pos: Vec2i { x: 200, y: left_y }, vel: Vec2i { x: 0, y: -100 } },
            );
            self.pavement_timer = rand_range_u32(30, 90);
        }
        let ghost pavs1 = self.pavements@;
        proof {
            assert(pav_phase_ok(
                old(self).pavements@,
                old(self).pavement_timer,
                pavs1,
                self.pavement_timer,
            ));
        }
        // Update pavements
        step_all(&mut self.pavements);
        retain_above(&mut self.pavements, -(H / 2));
        // Increase speed multipliers over time
        self.car_speed_multiplier = bump_multiplier(self.car_speed_multiplier, acc);
        self.coin_speed_multiplier = bump_multiplier(self.coin_speed_multiplier, acc);
        // Update cars and coins with increased speed
        step_all_scaled(&mut self.cars, self.car_speed_multiplier);
        step_all_scaled(&mut self.coins, self.coin_speed_multiplier);
        // a second pickup sweep rings the chime
        let mut coin_sound = false;
        let got2 = consume_first_within(&mut self.coins, self.guy.pos, COLLISION_DISTANCE);
        if got2.is_some() {
            coin_sound = true;
            if self.score < u32::MAX {
                self.score = self.score + 1;
            }
        }
        proof {
            assert(coins_chain(*old(self), *self, acc, coin_sound, coins2, pavs1));
        }
        coin_sound
    }
}

/// What the in-game scene renders at each sprite slot: the background,
/// the three walls, the character, the cop, then every pavement strip,
/// car and coin; the score text follows these.
pub open spec fn scene_slots(g: Game) -> Seq<(Transform, SheetRegion)> {
    seq![(bg_slot())] + wall_slots(g.walls@) + seq![
        guy_slot(g.guy.pos, g.curr_frame),
        cop_slot(g.cop.pos, g.curr_frame),
    ] + pavement_slots(g.pavements@) + car_slots(g.cars@) + coin_slots(g.coins@)
}

impl Game {
    /// Lays the in-game scene out for the renderer: the transform and
    /// sheet region of every sprite, in slot order. The engine uploads
    /// these and draws the score text after them.
    #[verifier::rlimit(100)]
    #[verifier::spinoff_prover]
    pub fn render_layout(&self) -> (r: Vec<(Transform, SheetRegion)>)
        requires
            self.wf(),
        ensures
            r@ == scene_slots(*self),
    {
        let mut out: Vec<(Transform, SheetRegion)> = Vec::new();
        // set bg image
        out.push(
            (
                Transform::from(
                    SPRITE { center: Vec2i { x: 38400, y: 64000 }, size: Vec2i { x: W, y: H } },
                ),
                SheetRegion::new(0, 0, 0, 16, 640, 480),
            ),
        );
        // set walls
        let mut i: usize = 0;
        while i < self.walls.len()
            invariant
                self.wf(),
                i <= self.walls@.len(),
                out@ == seq![(bg_slot())] + wall_slots(self.walls@.take(i as int)),
            decreases self.walls@.len() - i,
        {
            let w = self.walls[i];
            out.push((Transform::from(w), SheetRegion::new(0, 0, 480, 12, 8, 8)));
            proof {
                assert(self.walls@.take(i + 1) =~= self.walls@.take(i as int).push(
                    self.walls@[i as int],
                ));
                assert(out@ =~= seq![(bg_slot())] + wall_slots(self.walls@.take(i + 1)));
            }
            i += 1;
        }
        proof {
            assert(self.walls@.take(self.walls@.len() as int) =~= self.walls@);
        }
        // set guy, animated by the walk cycle
        let ones_place = self.curr_frame % 10;
        let mut guy_uv = SheetRegion::new(0, 100, 498, 1, 14, 18);
        animate_char(&ones_place, &mut guy_uv, 0, [100, 498, 114, 480, 114, 498], 1, 14, 18);
        out.push(
            (
                Transform::from(
                    SPRITE { center: self.guy.pos, size: Vec2i { x: 3840, y: 6533 } },
                ),
                guy_uv,
            ),
        );
        // set cop
        let mut cop_uv = SheetRegion::new(0, 177, 498, 0, 14, 18);
        animate_char(&ones_place, &mut cop_uv, 0, [177, 498, 191, 480, 191, 498], 0, 14, 18);
        out.push(
            (
                Transform::from(
                    SPRITE { center: self.cop.pos, size: Vec2i { x: 3840, y: 6533 } },
                ),
                cop_uv,
            ),
        );
        let ghost head = seq![(bg_slot())] + wall_slots(self.walls@) + seq![
            guy_slot(self.guy.pos, self.curr_frame),
            cop_slot(self.cop.pos, self.curr_frame),
        ];
        proof {
            assert(out@ =~= head);
        }
        // set pavement
        let mut i: usize = 0;
        while i < self.pavements.len()
            invariant
                self.wf(),
                i <= self.pavements@.len(),
                out@ == head + pavement_slots(self.pavements@.take(i as int)),
                head == seq![(bg_slot())] + wall_slots(self.walls@) + seq![
                    guy_slot(self.guy.pos, self.curr_frame),
                    cop_slot(self.cop.pos, self.curr_frame),
                ],
            decreases self.pavements@.len() - i,
        {
            let p = self.pavements[i];
            out.push(
                (
                    Transform::from(SPRITE { center: p.pos, size: Vec2i { x: 30000, y: H } }),
                    SheetRegion::new(0, 640, 0, 5, 45, 748),
                ),
            );
            proof {
                assert(self.pavements@.take(i + 1) =~= self.pavements@.take(i as int).push(
                    self.pavements@[i as int],
                ));
                assert(out@ =~= head + pavement_slots(self.pavements@.take(i + 1)));
            }
            i += 1;
        }
        proof {
            assert(self.pavements@.take(self.pavements@.len() as int) =~= self.pavements@);
        }
        let ghost head2 = head + pavement_slots(self.pavements@);
        // set car
        let mut i: usize = 0;
        while i < self.cars.len()
            invariant
                self.wf(),
                i <= self.cars@.len(),
                out@ == head2 + car_slots(self.cars@.take(i as int)),
                head2 == seq![(bg_slot())] + wall_slots(self.walls@) + seq![
                    guy_slot(self.guy.pos, self.curr_frame),
                    cop_slot(self.cop.pos, self.curr_frame),
                ] + pavement_slots(self.pavements@),
            decreases self.cars@.len() - i,
        {
            let c = self.cars[i];
            out.push(
                (
                    Transform::from(SPRITE { center: c.pos, size: Vec2i { x: 3840, y: 6533 } }),
                    SheetRegion::new(0, 27, 525, 3, 27, 32),
                ),
            );
            proof {
                assert(self.cars@.take(i + 1) =~= self.cars@.take(i as int).push(
                    self.cars@[i as int],
                ));
                assert(out@ =~= head2 + car_slots(self.cars@.take(i + 1)));
            }
            i += 1;
        }
        proof {
            assert(self.cars@.take(self.cars@.len() as int) =~= self.cars@);
        }
        let ghost head3 = head2 + car_slots(self.cars@);
        // set coin
        let mut i: usize = 0;
        while i < self.coins.len()
            invariant
                self.wf(),
                i <= self.coins@.len(),
                out@ == head3 + coin_slots(self.coins@.take(i as int)),
                head3 == seq![(bg_slot())] + wall_slots(self.walls@) + seq![
                    guy_slot(self.guy.pos, self.curr_frame),
                    cop_slot(self.cop.pos, self.curr_frame),
                ] + pavement_slots(self.pavements@) + car_slots(self.cars@),
            decreases self.coins@.len() - i,
        {
            let c = self.coins[i];
            out.push(
                (
                    Transform::from(SPRITE { center: c.pos, size: Vec2i { x: 3300, y: 3800 } }),
                    SheetRegion::new(0, 20, 480, 2, 16, 16),
                ),
            );
            proof {
                assert(self.coins@.take(i + 1) =~= self.coins@.take(i as int).push(
                    self.coins@[i as int],
                ));
                assert(out@ =~= head3 + coin_slots(self.coins@.take(i + 1)));
            }
            i += 1;
        }
        proof {
            assert(self.coins@.take(self.coins@.len() as int) =~= self.coins@);
            assert(out@ =~= scene_slots(*self));
        }
        out
    }
}

/// The lane a position is aligned with: the first column within a pixel
/// of it, or none.
pub open spec fn lane_match(cols: Seq<i64>, x: i64) -> int {
    crate::spawn::first_idx(cols, |v: i64| -100 < x - v < 100, 0)
}

/// Where a lane step from `x` lands: one column over in the pressed
/// direction, inside the three-lane board; a position aligned with no
/// column counts as the leftmost lane, and a step off the board stays
/// where it was.
pub open spec fn lane_target(cols: Seq<i64>, x: i64, dir: int) -> i64 {
    let idx = lane_match(cols, x);
    let ci: int = if idx >= 0 {
        idx
    } else {
        0
    };
    if -1 < ci + dir < 3 {
        cols[ci + dir]
    } else {
        x
    }
}

/// The lane the position is aligned with: the first column within a
/// pixel of it.
fn lane_index(values: &Vec<i64>, x: i64) -> (r: Option<usize>)
    requires
        forall|i: int| 0 <= i < values@.len() ==> in_coord(#[trigger] values@[i]),
        in_pos(x),
    ensures
        r matches Some(i) ==> i < values@.len() && i as int == lane_match(values@, x),
        r is None ==> lane_match(values@, x) == -1,
{
    let n = values.len();
    let mut i: usize = 0;
    while i < n
        invariant
            n == values@.len(),
            i <= n,
            forall|j: int| 0 <= j < values@.len() ==> in_coord(#[trigger] values@[j]),
            in_pos(x),
            forall|j: int| 0 <= j < i ==> !(-100 < x - #[trigger] values@[j] < 100),
        decreases n - i,
    {
        let v = values[i];
        let d = if x >= v {
            x - v
        } else {
            v - x
        };
        if d < 100 {
            proof {
                crate::spawn::lemma_first_idx_found(
                    values@,
                    |c: i64| -100 < x - c < 100,
                    0,
                    i as int,
                );
            }
            return Some(i);
        }
        i += 1;
    }
    proof {
        crate::spawn::lemma_first_idx_none(values@, |c: i64| -100 < x - c < 100, 0);
    }
    None
}

/// One frame of jump physics: twelve powered frames with a decaying
/// climb, then a fixed descent to the landing height; while the
/// character is airborne the cop's countdown runs and it sinks away
/// after its hundred frames.
fn jump_frame(guy: Guy, cop: Guy, up_pressed: bool) -> (r: (Guy, Guy))
    requires
        jump_ok(guy),
        in_pos(guy.pos.x) && in_pos(guy.pos.y),
        in_pos(cop.pos.x) && in_pos(cop.pos.y),
        cop.fwd_jump_frames <= 101,
    ensures
        r == jump_spec(guy, cop, up_pressed),
        jump_ok(r.0),
        in_pos(r.0.pos.x) && in_pos(r.0.pos.y),
        in_pos(r.1.pos.x) && in_pos(r.1.pos.y),
        r.1.fwd_jump_frames <= 101,
        r.0.pos.x == guy.pos.x,
        r.1.pos.x == cop.pos.x,
        r.0.is_visible == guy.is_visible,
{
    let mut guy = guy;
    let mut cop = cop;
    // for jumping
    if up_pressed && !guy.is_jumping {
        guy.is_jumping = true;
    }
    // track the number of frames the guy has been jumping for
    if guy.is_jumping {
        guy.fwd_jump_frames = sat_inc(guy.fwd_jump_frames);
        if guy.fwd_jump_frames <= 12 {
            // make the distance traveled between frames progressively less
            guy.pos.y = clamp_pos(guy.pos.y as i128 + guy.jump_velocity as i128);
            guy.jump_velocity = guy.jump_velocity - 20;
        } else if guy.pos.y >= 5000 {
            guy.pos.y = guy.pos.y - 230;
        } else {
            // End the jumping animation
            guy.is_jumping = false;
            guy.fwd_jump_frames = 0;
            guy.pos.y = 5000;
            guy.jump_velocity = 1000;
        }
        if cop.is_visible && cop.fwd_jump_frames <= 100 {
            cop.fwd_jump_frames = cop.fwd_jump_frames + 1;
        }
        if cop.fwd_jump_frames > 100 && cop.pos.y >= 0 {
            cop.pos.y = cop.pos.y - 100;
        } else if cop.pos.y < 0 && cop.is_visible {
            // end cop visibility
            cop.fwd_jump_frames = 0;
            cop.is_visible = false;
            cop.pos.y = -5000;
        }
    }
    (guy, cop)
}

/// An increment that pins at the top of its range instead of wrapping.
fn sat_inc(x: usize) -> (r: usize)
    ensures
        x < usize::MAX ==> r == x + 1,
        x == usize::MAX ==> r == x,
{
    if x < usize::MAX {
        x + 1
    } else {
        x
    }
}

} // verus!
