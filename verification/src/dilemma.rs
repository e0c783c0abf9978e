//! The ferry-passengers variant: a bus drives three lanes, dodges stray
//! animals, picks up waiting passengers, and drops each one at the
//! building whose line of work matches theirs. Each tagged entity list
//! is a sprite list and a tag list that travel together.

use vstd::prelude::*;
use crate::geom::{clamp_pos, clampp, in_pos, Vec2i, SPRITE};
use crate::level::{
    floor_wall, initial_pavements, lane_cols, lane_columns, left_wall, make_floor_wall,
    make_left_wall, make_right_wall, right_wall, side_cols, side_columns,
};
use crate::render::{bg_slot, pavement_slots, wall_slots, Camera2D, Transform};
use crate::rng::rand_range_u32;
use crate::spawn::{
    any_within, dist_sq, first_hit, first_within, spawn_phase_tagged, spawn_position,
    COLLISION_DISTANCE,
};
use crate::sprites::{
    advance_walk_frame, all_contacts_degenerate, bump_multiplier, bump_score, bumped_mult,
    char_box, keep_tags, pav_phase_ok, resolve_collisions, resolve_steps, retain_above,
    retain_above_tagged, scaled_step, single_track, step_all, step_all_scaled, swap_remove_pair,
    walk_spec, SheetRegion, Sprite, MULT_MAX, MULT_ONE,
};

verus! {

/// Window width in fixed-point hundredths: 768 pixels.
pub const W: i64 = 76800;

/// Window height in fixed-point hundredths: 1280 pixels.
pub const H: i64 = 128000;

/// The bus's speed: 4 pixels a frame.
pub const GUY_SPEED: i64 = 400;

/// A building this close can take a drop-off: 75 pixels.
pub const DROP_OFF_DIST: i64 = 7500;

/// Resolver passes per frame.
pub const COLLISION_STEPS: usize = 3;

/// The bus's starting height: 24 pixels up.
pub const GUY_Y_POS: i64 = 2400;

#[derive(Clone, Copy, PartialEq, Eq, Structural, Debug)]
pub enum GameState {
    TitleScreen,
    InGame,
    GameOver,
}

/// A passenger's or building's line of work; a passenger leaves the bus
/// at a building of the same one.
#[derive(Clone, Copy, PartialEq, Eq, Structural, Debug)]
pub enum Job {
    Doctor,
    Firefighter,
    Regular,
    Cop,
}

impl Job {
    /// The job's name, as the drop-off announcement prints it.
    pub fn name(&self) -> (r: &'static str)
        ensures
            *self is Doctor ==> r@ == "Doctor"@,
            *self is Firefighter ==> r@ == "Firefighter"@,
            *self is Regular ==> r@ == "Regular"@,
            *self is Cop ==> r@ == "Cop"@,
    {
        match self {
            Job::Firefighter => "Firefighter",
            Job::Doctor => "Doctor",
            Job::Regular => "Regular",
            Job::Cop => "Cop",
        }
    }
}

#[derive(Clone, Copy, PartialEq, Eq, Structural, Debug)]
pub enum CatDog {
    Cat,
    Dog,
}

/// The player's bus.
#[derive(Clone, Copy, PartialEq, Eq, Structural, Debug)]
pub struct Bus {
    pub pos: Vec2i,
}

pub struct Game {
    pub camera: Camera2D,
    pub walls: Vec<SPRITE>,
    pub bus: Bus,
    pub animals: Vec<Sprite>,
    pub animal_kinds: Vec<CatDog>,
    pub people: Vec<Sprite>,
    pub people_jobs: Vec<Job>,
    pub animal_timer: u32,
    pub people_timer: u32,
    pub animal_speed_multiplier: u64,
    pub building_speed_multiplier: u64,
    pub buildings: Vec<Sprite>,
    pub building_jobs: Vec<Job>,
    pub building_timer: u32,
    pub pavements: Vec<Sprite>,
    pub pavement_timer: u32,
    pub score: u32,
    pub curr_frame: usize,
    pub frame_counter: usize,
    pub frame_direction: i64,
    pub game_over: bool,
    pub game_state: GameState,
    pub on_bus: Vec<Job>,
}

/// The bus's box for wall resolution: 38.4 x 65.33 pixels.
pub open spec fn bus_size() -> Vec2i {
    Vec2i { x: 3840, y: 6533 }
}

/// What one `move_bus` call does: the walk cycle ticks, the bus moves
/// by the arrow-key axes (the vertical one twice, a quirk of this
/// variant's tuning), and is resolved against the walls -- exactly,
/// wherever the resolver's single-contact regime pins it.
pub open spec fn bus_moved_ok(pre: Game, post: Game, dir_x: i64, dir_y: i64) -> bool {
    let w = walk_spec(pre.curr_frame, pre.frame_counter, pre.frame_direction);
    let bus_pre = Vec2i {
        x: clampp(pre.bus.pos.x + dir_x * GUY_SPEED),
        y: clampp(clampp(pre.bus.pos.y + dir_y * GUY_SPEED) + dir_y * GUY_SPEED),
    };
    &&& post == (Game {
        bus: post.bus,
        curr_frame: w.0,
        frame_counter: w.1,
        frame_direction: w.2,
        ..pre
    })
    &&& in_pos(post.bus.pos.x) && in_pos(post.bus.pos.y)
    &&& (single_track(bus_pre, bus_size(), pre.walls@, COLLISION_STEPS as nat) ==> post.bus.pos
        == resolve_steps(bus_pre, bus_size(), pre.walls@, COLLISION_STEPS as nat))
    &&& ((forall|i: int|
        0 <= i < pre.walls@.len() ==> !(#[trigger] pre.walls@[i]).touches(
            char_box(bus_pre, bus_size()),
        )) ==> post.bus.pos == bus_pre)
    &&& (all_contacts_degenerate(char_box(bus_pre, bus_size()), pre.walls@) ==> post.bus.pos
        == bus_pre)
}

/// The first seat at or after `i` whose rider holds the wanted job, or
/// -1 when none does.
pub open spec fn job_hit_from(s: Seq<Job>, want: Job, i: int) -> int
    decreases s.len() - i,
{
    if i < 0 || i >= s.len() {
        -1
    } else if s[i] == want {
        i
    } else {
        job_hit_from(s, want, i + 1)
    }
}

/// The seat of the first rider with the wanted job, or -1.
pub open spec fn job_hit(s: Seq<Job>, want: Job) -> int {
    job_hit_from(s, want, 0)
}

proof fn lemma_job_hit_found(s: Seq<Job>, want: Job, i: int, k: int)
    requires
        0 <= i <= k < s.len(),
        s[k] == want,
        forall|j: int| i <= j < k ==> s[j] != want,
    ensures
        job_hit_from(s, want, i) == k,
    decreases k - i,
{
    if i < k {
        lemma_job_hit_found(s, want, i + 1, k);
    }
}

proof fn lemma_job_hit_none(s: Seq<Job>, want: Job, i: int)
    requires
        0 <= i <= s.len(),
        forall|j: int| i <= j < s.len() ==> s[j] != want,
    ensures
        job_hit_from(s, want, i) == -1,
    decreases s.len() - i,
{
    if i < s.len() {
        lemma_job_hit_none(s, want, i + 1);
    }
}

/// What one `run_pickups` call does, given the random spawn outcomes
/// (`animals1`/`kinds1` and `people1`/`jobs1`, each list after its
/// spawn phase): animals and passengers step and the fallen are culled;
/// an animal within the collision distance of the bus ends the game;
/// and with a free seat, the first passenger within reach boards --
/// its job joins the bus and its record is swap-removed.
pub open spec fn pickups_chain(
    pre: Game,
    post: Game,
    animals1: Seq<Sprite>,
    kinds1: Seq<CatDog>,
    people1: Seq<Sprite>,
    jobs1: Seq<Job>,
) -> bool {
    let animals2 = animals1.map_values(|c: Sprite| c.stepped());
    let animals3 = animals2.filter(|c: Sprite| c.pos.y > -800);
    let kinds3 = keep_tags(animals2, kinds1, (-800) as i64);
    let people2 = people1.map_values(|c: Sprite| c.stepped());
    let dead = exists|i: int|
        0 <= i < animals3.len() && dist_sq(pre.bus.pos, (#[trigger] animals3[i]).pos)
            <= COLLISION_DISTANCE * COLLISION_DISTANCE;
    let h = if pre.on_bus@.len() < 5 {
        first_hit(people2, pre.bus.pos, COLLISION_DISTANCE)
    } else {
        -1
    };
    let people3 = if h >= 0 {
        people2.update(h, people2.last()).drop_last()
    } else {
        people2
    };
    let jobs3 = if h >= 0 {
        jobs1.update(h, jobs1.last()).drop_last()
    } else {
        jobs1
    };
    let bus2 = if h >= 0 {
        pre.on_bus@.push(jobs1[h])
    } else {
        pre.on_bus@
    };
    &&& spawn_phase_tagged(
        pre.animals@,
        pre.animal_kinds@,
        pre.animals@,
        pre.buildings@,
        pre.animal_timer,
        animals1,
        kinds1,
        post.animal_timer,
        lane_cols(),
        128800,
        32,
        90,
    )
    &&& (animals1 != pre.animals@ ==> kinds1 == pre.animal_kinds@.push(CatDog::Cat))
    &&& spawn_phase_tagged(
        pre.people@,
        pre.people_jobs@,
        animals3,
        pre.buildings@,
        pre.people_timer,
        people1,
        jobs1,
        post.people_timer,
        lane_cols(),
        128800,
        5,
        180,
    )
    &&& post.animals@ == animals3.filter(|c: Sprite| c.pos.y > -800)
    &&& post.animal_kinds@ == keep_tags(animals3, kinds3, (-800) as i64)
    &&& post.people@ == people3.filter(|c: Sprite| c.pos.y > -800)
    &&& post.people_jobs@ == keep_tags(people3, jobs3, (-800) as i64)
    &&& post.on_bus@ == bus2
    &&& post.game_state == (if dead {
        GameState::GameOver
    } else {
        pre.game_state
    })
    &&& post.bus == pre.bus
    &&& post.buildings == pre.buildings && post.building_jobs == pre.building_jobs
    &&& post.building_timer == pre.building_timer
    &&& post.pavements == pre.pavements && post.pavement_timer == pre.pavement_timer
    &&& post.score == pre.score && post.game_over == pre.game_over
    &&& post.walls == pre.walls && post.camera == pre.camera
    &&& post.curr_frame == pre.curr_frame && post.frame_counter == pre.frame_counter
    &&& post.frame_direction == pre.frame_direction
    &&& post.animal_speed_multiplier == pre.animal_speed_multiplier
    &&& post.building_speed_multiplier == pre.building_speed_multiplier
}

pub open spec fn pickups_ok(pre: Game, post: Game) -> bool {
    exists|animals1: Seq<Sprite>, kinds1: Seq<CatDog>, people1: Seq<Sprite>, jobs1: Seq<Job>|
        #[trigger] pickups_chain(pre, post, animals1, kinds1, people1, jobs1)
}

/// What one `run_dropoffs` call does, given the random outcomes
/// (`buildings3`/`bjobs3` the building list after its spawn phase, and
/// `pavs1` the pavement list after its): the bell rings and the score
/// rises exactly when the first building within the drop-off distance
/// wants a job some rider holds -- that rider and that building are
/// swap-removed; then buildings cull, spawn on the curbside columns,
/// step and cull again, the pavement scrolls, and the difficulty
/// multipliers grow and scale the animals and buildings one more step.
pub open spec fn dropoffs_chain(
    pre: Game,
    post: Game,
    acc: u64,
    sound: bool,
    buildings3: Seq<Sprite>,
    bjobs3: Seq<Job>,
    pavs1: Seq<Sprite>,
) -> bool {
    let b = first_hit(pre.buildings@, pre.bus.pos, DROP_OFF_DIST);
    let seat = if b >= 0 {
        job_hit(pre.on_bus@, pre.building_jobs@[b])
    } else {
        -1
    };
    let hit = b >= 0 && seat >= 0;
    let bus2 = if hit {
        pre.on_bus@.update(seat, pre.on_bus@.last()).drop_last()
    } else {
        pre.on_bus@
    };
    let buildings1 = if hit {
        pre.buildings@.update(b, pre.buildings@.last()).drop_last()
    } else {
        pre.buildings@
    };
    let bjobs1 = if hit {
        pre.building_jobs@.update(b, pre.building_jobs@.last()).drop_last()
    } else {
        pre.building_jobs@
    };
    let buildings2 = buildings1.filter(|c: Sprite| c.pos.y > -800);
    let bjobs2 = keep_tags(buildings1, bjobs1, (-800) as i64);
    let buildings4 = buildings3.map_values(|c: Sprite| c.stepped());
    &&& spawn_phase_tagged(
        buildings2,
        bjobs2,
        pre.animals@,
        buildings2,
        pre.building_timer,
        buildings3,
        bjobs3,
        post.building_timer,
        side_cols(),
        128800,
        32,
        90,
    )
    &&& pav_phase_ok(pre.pavements@, pre.pavement_timer, pavs1, post.pavement_timer)
    &&& post.buildings@ == buildings4.filter(|c: Sprite| c.pos.y > -800).map_values(
        |c: Sprite| scaled_step(c, post.building_speed_multiplier),
    )
    &&& post.building_jobs@ == keep_tags(buildings4, bjobs3, (-800) as i64)
    &&& post.animals@ == pre.animals@.map_values(
        |c: Sprite| scaled_step(c, post.animal_speed_multiplier),
    )
    &&& post.animal_kinds == pre.animal_kinds
    &&& post.pavements@ == pavs1.map_values(|p: Sprite| p.stepped()).filter(
        |p: Sprite| p.pos.y > -64000,
    )
    &&& post.animal_speed_multiplier == bumped_mult(pre.animal_speed_multiplier, acc)
    &&& post.building_speed_multiplier == bumped_mult(pre.building_speed_multiplier, acc)
    &&& post.score == (if hit {
        bump_score(pre.score)
    } else {
        pre.score
    })
    &&& sound == hit
    &&& post.on_bus@ == bus2
    &&& post.bus == pre.bus
    &&& post.people == pre.people && post.people_jobs == pre.people_jobs
    &&& post.people_timer == pre.people_timer && post.animal_timer == pre.animal_timer
    &&& post.game_state == pre.game_state && post.game_over == pre.game_over
    &&& post.walls == pre.walls && post.camera == pre.camera
    &&& post.curr_frame == pre.curr_frame && post.frame_counter == pre.frame_counter
    &&& post.frame_direction == pre.frame_direction
}

pub open spec fn dropoffs_ok(pre: Game, post: Game, acc: u64, sound: bool) -> bool {
    exists|buildings3: Seq<Sprite>, bjobs3: Seq<Job>, pavs1: Seq<Sprite>|
        #[trigger] dropoffs_chain(pre, post, acc, sound, buildings3, bjobs3, pavs1)
}

impl Game {
    pub open spec fn wf(self) -> bool {
        &&& in_pos(self.bus.pos.x) && in_pos(self.bus.pos.y)
        &&& forall|i: int| 0 <= i < self.walls@.len() ==> (#[trigger] self.walls@[i]).wf()
        &&& forall|i: int| 0 <= i < self.animals@.len() ==> (#[trigger] self.animals@[i]).wf()
        &&& forall|i: int| 0 <= i < self.people@.len() ==> (#[trigger] self.people@[i]).wf()
        &&& forall|i: int| 0 <= i < self.buildings@.len() ==> (#[trigger] self.buildings@[i]).wf()
        &&& forall|i: int| 0 <= i < self.pavements@.len() ==> (#[trigger] self.pavements@[i]).wf()
        &&& self.animals@.len() == self.animal_kinds@.len()
        &&& self.people@.len() == self.people_jobs@.len()
        &&& self.buildings@.len() == self.building_jobs@.len()
        &&& self.on_bus@.len() <= 5
        &&& self.animal_speed_multiplier <= MULT_MAX
        &&& self.building_speed_multiplier <= MULT_MAX
        &&& self.frame_counter < 5
        &&& self.curr_frame <= 2
        &&& (self.frame_direction == 1 || self.frame_direction == -1)
        &&& (self.curr_frame == 0 ==> self.frame_direction == 1)
        &&& (self.curr_frame == 2 ==> self.frame_direction == -1)
    }

    /// A fresh game on the title screen: the bus on the center lane,
    /// three walls, two pavement strips, an empty bus and empty streets.
    pub fn new() -> (r: Game)
        ensures
            r.wf(),
            r.camera == (Camera2D {
                screen_pos: Vec2i { x: 0, y: 0 },
                screen_size: Vec2i { x: W, y: H },
            }),
            r.bus == (Bus { pos: Vec2i { x: 37866, y: GUY_Y_POS } }),
            r.walls@ == seq![left_wall(), right_wall(), floor_wall()],
            r.animals@ == Seq::<Sprite>::empty() && r.animal_kinds@ == Seq::<CatDog>::empty(),
            r.people@ == Seq::<Sprite>::empty() && r.people_jobs@ == Seq::<Job>::empty(),
            r.buildings@ == Seq::<Sprite>::empty() && r.building_jobs@ == Seq::<Job>::empty(),
            r.on_bus@ == Seq::<Job>::empty(),
            r.pavements@ == initial_pavements(),
            r.animal_timer == 0 && r.people_timer == 0 && r.building_timer == 0
                && r.pavement_timer == 0,
            r.animal_speed_multiplier == MULT_ONE && r.building_speed_multiplier == MULT_ONE,
            r.score == 0,
            r.curr_frame == 0 && r.frame_counter == 0 && r.frame_direction == 1,
            !r.game_over,
            r.game_state is TitleScreen,
    {
        let camera = Camera2D {
            screen_pos: Vec2i { x: 0, y: 0 },
            screen_size: Vec2i { x: W, y: H },
        };
        let bus = Bus { pos: Vec2i { x: 37866, y: GUY_Y_POS } };
        let mut walls: Vec<SPRITE> = Vec::new();
        walls.push(make_left_wall());
        walls.push(make_right_wall());
        walls.push(make_floor_wall());
        let mut pavements: Vec<Sprite> = Vec::new();
        // right pavement
        pavements.push(Sprite { pos: Vec2i { x: W - 200, y: 0 }, vel: Vec2i { x: 0, y: -100 } });
        // create a left pavement
        pavements.push(Sprite { pos: Vec2i { x: 200, y: 0 }, vel: Vec2i { x: 0, y: -100 } });
        proof {
            assert(walls@ =~= seq![left_wall(), right_wall(), floor_wall()]);
            assert(pavements@ =~= initial_pavements());
        }
        Game {
            camera,
            bus,
            walls,
            animals: Vec::new(),
            animal_kinds: Vec::new(),
            people: Vec::new(),
            people_jobs: Vec::new(),
            animal_timer: 0,
            people_timer: 0,
            buildings: Vec::new(),
            building_jobs: Vec::new(),
            building_timer: 0,
            animal_speed_multiplier: MULT_ONE,
            building_speed_multiplier: MULT_ONE,
            pavements,
            pavement_timer: 0,
            score: 0,
            curr_frame: 0,
            frame_counter: 0,
            frame_direction: 1,
            game_over: false,
            game_state: GameState::TitleScreen,
            on_bus: Vec::new(),
        }
    }

    pub fn is_game_over(&self) -> (r: bool)
        ensures
            r == self.game_over,
    {
        self.game_over
    }

    /// One simulation step. `dir_x` and `dir_y` are the arrow-key axes
    /// (-1, 0 or 1). Returns whether a drop-off should ring the bell.
    pub fn update(&mut self, dir_x: i64, dir_y: i64, space_pressed: bool, acc: u64) -> (drop_sound:
        bool)
        requires
            old(self).wf(),
            -1 <= dir_x <= 1,
            -1 <= dir_y <= 1,
        ensures
            final(self).wf(),
            old(self).game_state is TitleScreen && space_pressed ==> *final(self) == (Game {
                game_state: GameState::InGame,
                ..*old(self)
            }),
            old(self).game_state is TitleScreen && !space_pressed ==> *final(self) == *old(self),
            old(self).game_state is TitleScreen ==> !drop_sound,
            old(self).game_state is GameOver ==> *final(self) == *old(self) && !drop_sound,
            old(self).game_state is InGame ==> exists|m1: Game, m2: Game|
                #![trigger bus_moved_ok(*old(self), m1, dir_x, dir_y), pickups_ok(m1, m2)]
                bus_moved_ok(*old(self), m1, dir_x, dir_y) && pickups_ok(m1, m2) && dropoffs_ok(
                    m2,
                    *final(self),
                    acc,
                    drop_sound,
                ),
    {
        match self.game_state {
            GameState::TitleScreen => {
                // Check if the space bar is pressed
                if space_pressed {
                    // Transition to the in-game state
                    self.game_state = GameState::InGame;
                }
                false
            },
            GameState::GameOver => { false },
            GameState::InGame => {
                self.move_bus(dir_x, dir_y);
                let ghost m1 = *self;
                self.run_pickups();
                let ghost m2 = *self;
                let drop_sound = self.run_dropoffs(acc);
                proof {
                    assert(bus_moved_ok(*old(self), m1, dir_x, dir_y) && pickups_ok(m1, m2));
                    assert(dropoffs_ok(m2, *self, acc, drop_sound));
                }
                drop_sound
            },
        }
    }

    /// The bus's part of a frame: walk-cycle counters, arrow-key
    /// movement (the vertical axis applies twice a frame, a quirk of
    /// this variant's tuning), and resolution against the walls.
    #[verifier::rlimit(100)]
    #[verifier::spinoff_prover]
    fn move_bus(&mut self, dir_x: i64, dir_y: i64)
        requires
            old(self).wf(),
            -1 <= dir_x <= 1,
            -1 <= dir_y <= 1,
        ensures
            final(self).wf(),
            bus_moved_ok(*old(self), *final(self), dir_x, dir_y),
    {
        // set the speed of animation for the bus
        let stepped = advance_walk_frame(self.curr_frame, self.frame_counter, self.frame_direction);
        self.curr_frame = stepped.0;
        self.frame_counter = stepped.1;
        self.frame_direction = stepped.2;
        // for continuous left or right movement
        self.bus.pos.x = clamp_pos(self.bus.pos.x as i128 + (dir_x * GUY_SPEED) as i128);
        // for continuous up or down movement, applied twice
        self.bus.pos.y = clamp_pos(self.bus.pos.y as i128 + (dir_y * GUY_SPEED) as i128);
        self.bus.pos.y = clamp_pos(self.bus.pos.y as i128 + (dir_y * GUY_SPEED) as i128);
        // resolve the bus against the walls
        let resolved = resolve_collisions(
            self.bus.pos,
            Vec2i { x: 3840, y: 6533 },
            &self.walls,
            COLLISION_STEPS,
        );
        self.bus.pos = resolved;
    }

    /// Animal and passenger spawning and movement, the animal collision
    /// that ends the game, and pickups onto the bus.
    #[verifier::rlimit(100)]
    #[verifier::spinoff_prover]
    fn run_pickups(&mut self)
        requires
            old(self).wf(),
        ensures
            final(self).wf(),
            pickups_ok(*old(self), *final(self)),
    {
        let possible_values: Vec<i64> = lane_columns();
        // spawn new animals
        if self.animal_timer > 0 {
            self.animal_timer = self.animal_timer - 1;
        } else if self.animals.len() < 32 {
            match spawn_position(&possible_values, H + 800, &self.animals, &self.buildings) {
                Some(p) => {
                    let kind = if rand_range_u32(0, 1) == 0 {
                        CatDog::Cat
                    } else {
                        CatDog::Dog
                    };
                    self.animals.push(Sprite { pos: p, vel: Vec2i { x: 0, y: -200 } });
                    self.animal_kinds.push(kind);
                    self.animal_timer = rand_range_u32(30, 90);
                },
                None => {
                    // every lane blocked: try again next frame
                },
            }
        }
        let ghost animals1 = self.animals@;
        let ghost kinds1 = self.animal_kinds@;
        proof {
            assert(spawn_phase_tagged(
                old(self).animals@,
                old(self).animal_kinds@,
                old(self).animals@,
                old(self).buildings@,
                old(self).animal_timer,
                animals1,
                kinds1,
                self.animal_timer,
                lane_cols(),
                128800,
                32,
                90,
            ));
        }
        // update animal positions every frame
        step_all(&mut self.animals);
        // keep the animals still on the screen
        retain_above_tagged(&mut self.animals, &mut self.animal_kinds, -800);
        // spawn new people
        if self.people_timer > 0 {
            self.people_timer = self.people_timer - 1;
        } else if self.people.len() < 5 {
            match spawn_position(&possible_values, H + 800, &self.animals, &self.buildings) {
                Some(p) => {
                    let job = random_job();
                    self.people.push(Sprite { pos: p, vel: Vec2i { x: 0, y: -200 } });
                    self.people_jobs.push(job);
                    self.people_timer = rand_range_u32(30, 180);
                },
                None => {},
            }
        }
        let ghost people1 = self.people@;
        let ghost jobs1 = self.people_jobs@;
        proof {
            let animals3 = animals1.map_values(|c: Sprite| c.stepped()).filter(
                |c: Sprite| c.pos.y > -800,
            );
            assert(spawn_phase_tagged(
                old(self).people@,
                old(self).people_jobs@,
                animals3,
                old(self).buildings@,
                old(self).people_timer,
                people1,
                jobs1,
                self.people_timer,
                lane_cols(),
                128800,
                5,
                180,
            ));
        }
        // update people positions every frame
        step_all(&mut self.people);
        // an animal under the wheels ends the run
        if any_within(&self.animals, self.bus.pos, COLLISION_DISTANCE) {
            self.game_state = GameState::GameOver;
        }
        // a passenger within reach boards the bus, if a seat is free
        if self.on_bus.len() < 5 {
            let found = first_within(&self.people, self.bus.pos, COLLISION_DISTANCE);
            match found {
                Some(idx) => {
                    let job = self.people_jobs[idx];
                    self.on_bus.push(job);
                    swap_remove_pair(&mut self.people, &mut self.people_jobs, idx);
                },
                None => {},
            }
        }
        retain_above_tagged(&mut self.people, &mut self.people_jobs, -800);
        retain_above_tagged(&mut self.animals, &mut self.animal_kinds, -800);
        proof {
            assert(pickups_chain(*old(self), *self, animals1, kinds1, people1, jobs1));
        }
    }

    /// Matched drop-offs, building spawning and movement, the scrolling
    /// pavement and the difficulty ramp. Returns whether a drop-off
    /// rang the bell.
    #[verifier::rlimit(100)]
    #[verifier::spinoff_prover]
    fn run_dropoffs(&mut self, acc: u64) -> (drop_sound: bool)
        requires
            old(self).wf(),
        ensures
            final(self).wf(),
            dropoffs_ok(*old(self), *final(self), acc, drop_sound),
    {
        let side_values: Vec<i64> = side_columns();
        // a building within reach takes a matching passenger
        let mut drop_sound = false;
        let near_building = first_within(&self.buildings, self.bus.pos, DROP_OFF_DIST);
        match near_building {
            Some(idx) => {
                let wanted = self.building_jobs[idx];
                let seat = first_job(&self.on_bus, wanted);
                match seat {
                    Some(person_idx) => {
                        // ring the bell and let the passenger off
                        drop_sound = true;
                        self.on_bus.swap_remove(person_idx);
                        if self.score < u32::MAX {
                            self.score = self.score + 1;
                        }
                        swap_remove_pair(&mut self.buildings, &mut self.building_jobs, idx);
                    },
                    None => {},
                }
            },
            None => {},
        }
        retain_above_tagged(&mut self.buildings, &mut self.building_jobs, -800);
        let ghost buildings2 = self.buildings@;
        let ghost bjobs2 = self.building_jobs@;
        // Spawn new buildings
        if self.building_timer > 0 {
            self.building_timer = self.building_timer - 1;
        } else if self.buildings.len() < 32 {
            match spawn_position(&side_values, H + 800, &self.animals, &self.buildings) {
                Some(p) => {
                    let job = random_job();
                    self.buildings.push(Sprite { pos: p, vel: Vec2i { x: 0, y: -200 } });
                    self.building_jobs.push(job);
                    self.building_timer = rand_range_u32(30, 90);
                },
                None => {},
            }
        }
        let ghost buildings3 = self.buildings@;
        let ghost bjobs3 = self.building_jobs@;
        proof {
            assert(spawn_phase_tagged(
                buildings2,
                bjobs2,
                old(self).animals@,
                buildings2,
                old(self).building_timer,
                buildings3,
                bjobs3,
                self.building_timer,
                side_cols(),
                128800,
                32,
                90,
            ));
        }
        // Update buildings
        step_all(&mut self.buildings);
        retain_above_tagged(&mut self.buildings, &mut self.building_jobs, -800);
        // Spawn new pavements
        if self.pavement_timer > 0 {
            self.pavement_timer = self.pavement_timer - 1;
        } else if self.pavements.len() < 33 && self.pavements.len() >= 2 {
            let newest_right_idx = self.pavements.len() - 2;
            let newest_left_idx = self.pavements.len() - 1;
            // create a right pavement one window height above the newest
            let right_y = clamp_pos(self.pavements[newest_right_idx].pos.y as i128 + H as i128);
            self.pavements.push(
                Sprite { pos: Vec2i { x: W - 200, y: right_y }, vel: Vec2i { x: 0, y: -100 } },
            );
            // create a left pavement
            let left_y = clamp_pos(self.pavements[newest_left_idx].pos.y as i128 + H as i128);
            self.pavements.push(
                Sprite { pos: Vec2i { x: 200, y: left_y }, vel: Vec2i { x: 0, y: -100 } },
            );
            self.pavement_timer = rand_range_u32(30, 90);
        }
        let ghost pavs1 = self.pavements@;
        proof {
            assert(pav_phase_ok(
                old(self).pavements@,
                old(self).pavement_timer,
                pavs1,
                self.pavement_timer,
            ));
        }
        // Update pavements
        step_all(&mut self.pavements);
        retain_above(&mut self.pavements, -(H / 2));
        // Increase speed multipliers over time
        self.animal_speed_multiplier = bump_multiplier(self.animal_speed_multiplier, acc);
        self.building_speed_multiplier = bump_multiplier(self.building_speed_multiplier, acc);
        // Update animals and buildings with increased speed
        step_all_scaled(&mut self.animals, self.animal_speed_multiplier);
        step_all_scaled(&mut self.buildings, self.building_speed_multiplier);
        proof {
            assert(dropoffs_chain(*old(self), *self, acc, drop_sound, buildings3, bjobs3, pavs1));
        }
        drop_sound
    }
}

/// What the in-game scene renders at each sprite slot: the background,
/// the walls, the passenger-counter frame, the bus, then every pavement
/// strip, animal, waiting passenger and building, and the riders in
/// their seats; the score text follows these.
pub open spec fn street_scene_slots(g: Game) -> Seq<(Transform, SheetRegion)> {
    seq![(bg_slot())] + wall_slots(g.walls@) + seq![
        (counter_frame_slot()),
        bus_slot(g.bus.pos),
    ] + pavement_slots(g.pavements@) + animal_slots(g.animals@, g.animal_kinds@) + person_slots(
        g.people@,
        g.people_jobs@,
        g.curr_frame,
    ) + building_slots(g.buildings@, g.building_jobs@) + seat_slots(g.on_bus@)
}

/// The tall frame on the right edge that the riders are drawn inside.
pub open spec fn counter_frame_slot() -> (Transform, SheetRegion) {
    (
        Transform::of_sprite(
            SPRITE { center: Vec2i { x: 72800, y: 98000 }, size: Vec2i { x: 6000, y: 50000 } },
        ),
        SheetRegion::new_spec(0, 312, 501, 1, 40, 309),
    )
}

pub open spec fn bus_slot(pos: Vec2i) -> (Transform, SheetRegion) {
    (
        Transform::of_sprite(SPRITE { center: pos, size: Vec2i { x: 6000, y: 13000 } }),
        SheetRegion::new_spec(0, 8, 532, 1, 25, 42),
    )
}

pub open spec fn animal_cell(kind: CatDog) -> SheetRegion {
    match kind {
        CatDog::Cat => SheetRegion::new_spec(0, 113, 564, 3, 27, 29),
        CatDog::Dog => SheetRegion::new_spec(0, 146, 565, 3, 25, 27),
    }
}

pub open spec fn animal_slots(a: Seq<Sprite>, k: Seq<CatDog>) -> Seq<(Transform, SheetRegion)>
    recommends
        a.len() == k.len(),
{
    Seq::new(
        a.len(),
        |i: int| (
            Transform::of_sprite(SPRITE { center: a[i].pos, size: Vec2i { x: 3840, y: 6533 } }),
            animal_cell(k[i]),
        ),
    )
}

/// A waiting passenger's walk cell: three cells per job, by the frame's
/// ones place.
pub open spec fn person_cell(job: Job, ones: usize) -> SheetRegion {
    match job {
        Job::Firefighter => if ones == 0 {
            SheetRegion::new_spec(0, 134, 480, 0, 16, 19)
        } else if ones == 1 {
            SheetRegion::new_spec(0, 134, 499, 0, 16, 19)
        } else {
            SheetRegion::new_spec(0, 150, 498, 0, 16, 19)
        },
        Job::Doctor => if ones == 0 {
            SheetRegion::new_spec(0, 212, 480, 0, 14, 17)
        } else if ones == 1 {
            SheetRegion::new_spec(0, 212, 497, 0, 14, 17)
        } else {
            SheetRegion::new_spec(0, 226, 497, 0, 14, 17)
        },
        Job::Cop => if ones == 0 {
            SheetRegion::new_spec(0, 177, 480, 0, 14, 18)
        } else if ones == 1 {
            SheetRegion::new_spec(0, 191, 498, 0, 14, 18)
        } else {
            SheetRegion::new_spec(0, 177, 498, 0, 14, 18)
        },
        Job::Regular => if ones == 0 {
            SheetRegion::new_spec(0, 100, 480, 1, 14, 18)
        } else if ones == 1 {
            SheetRegion::new_spec(0, 100, 498, 1, 14, 18)
        } else {
            SheetRegion::new_spec(0, 114, 498, 1, 14, 18)
        },
    }
}

pub open spec fn person_slots(p: Seq<Sprite>, j: Seq<Job>, curr_frame: usize) -> Seq<
    (Transform, SheetRegion),
>
    recommends
        p.len() == j.len(),
{
    Seq::new(
        p.len(),
        |i: int| (
            Transform::of_sprite(SPRITE { center: p[i].pos, size: Vec2i { x: 3840, y: 6533 } }),
            person_cell(j[i], (curr_frame % 10) as usize),
        ),
    )
}

pub open spec fn building_cell(job: Job) -> SheetRegion {
    match job {
        Job::Firefighter => SheetRegion::new_spec(0, 132, 518, 1, 44, 42),
        Job::Doctor => SheetRegion::new_spec(0, 212, 528, 1, 30, 30),
        Job::Cop => SheetRegion::new_spec(0, 176, 530, 1, 30, 28),
        Job::Regular => SheetRegion::new_spec(0, 97, 528, 1, 32, 33),
    }
}

pub open spec fn building_slots(b: Seq<Sprite>, j: Seq<Job>) -> Seq<(Transform, SheetRegion)>
    recommends
        b.len() == j.len(),
{
    Seq::new(
        b.len(),
        |i: int| (
            Transform::of_sprite(SPRITE { center: b[i].pos, size: Vec2i { x: 6000, y: 8000 } }),
            building_cell(j[i]),
        ),
    )
}

pub open spec fn seat_cell(job: Job) -> SheetRegion {
    match job {
        Job::Firefighter => SheetRegion::new_spec(0, 134, 480, 0, 16, 19),
        Job::Doctor => SheetRegion::new_spec(0, 212, 480, 0, 14, 17),
        Job::Cop => SheetRegion::new_spec(0, 177, 480, 0, 14, 18),
        Job::Regular => SheetRegion::new_spec(0, 100, 480, 0, 14, 18),
    }
}

/// The riders, drawn down the counter frame at 90-pixel spacing.
pub open spec fn seat_slots(jobs: Seq<Job>) -> Seq<(Transform, SheetRegion)> {
    Seq::new(
        jobs.len(),
        |i: int| (
            Transform::of_sprite(
                SPRITE {
                    center: Vec2i { x: 72800, y: (H - 12000 - 9000 * i) as i64 },
                    size: Vec2i { x: 3840, y: 6533 },
                },
            ),
            seat_cell(jobs[i]),
        ),
    )
}

fn animal_cell_of(kind: CatDog) -> (r: SheetRegion)
    ensures
        r == animal_cell(kind),
{
    match kind {
        CatDog::Cat => SheetRegion::new(0, 113, 564, 3, 27, 29),
        CatDog::Dog => SheetRegion::new(0, 146, 565, 3, 25, 27),
    }
}

fn person_cell_of(job: Job, ones: usize) -> (r: SheetRegion)
    ensures
        r == person_cell(job, ones),
{
    match job {
        Job::Firefighter => {
            if ones == 0 {
                SheetRegion::new(0, 134, 480, 0, 16, 19)
            } else if ones == 1 {
                SheetRegion::new(0, 134, 499, 0, 16, 19)
            } else {
                SheetRegion::new(0, 150, 498, 0, 16, 19)
            }
        },
        Job::Doctor => {
            if ones == 0 {
                SheetRegion::new(0, 212, 480, 0, 14, 17)
            } else if ones == 1 {
                SheetRegion::new(0, 212, 497, 0, 14, 17)
            } else {
                SheetRegion::new(0, 226, 497, 0, 14, 17)
            }
        },
        Job::Cop => {
            if ones == 0 {
                SheetRegion::new(0, 177, 480, 0, 14, 18)
            } else if ones == 1 {
                SheetRegion::new(0, 191, 498, 0, 14, 18)
            } else {
                SheetRegion::new(0, 177, 498, 0, 14, 18)
            }
        },
        Job::Regular => {
            if ones == 0 {
                SheetRegion::new(0, 100, 480, 1, 14, 18)
            } else if ones == 1 {
                SheetRegion::new(0, 100, 498, 1, 14, 18)
            } else {
                SheetRegion::new(0, 114, 498, 1, 14, 18)
            }
        },
    }
}

fn building_cell_of(job: Job) -> (r: SheetRegion)
    ensures
        r == building_cell(job),
{
    match job {
        Job::Firefighter => SheetRegion::new(0, 132, 518, 1, 44, 42),
        Job::Doctor => SheetRegion::new(0, 212, 528, 1, 30, 30),
        Job::Cop => SheetRegion::new(0, 176, 530, 1, 30, 28),
        Job::Regular => SheetRegion::new(0, 97, 528, 1, 32, 33),
    }
}

fn seat_cell_of(job: Job) -> (r: SheetRegion)
    ensures
        r == seat_cell(job),
{
    match job {
        Job::Firefighter => SheetRegion::new(0, 134, 480, 0, 16, 19),
        Job::Doctor => SheetRegion::new(0, 212, 480, 0, 14, 17),
        Job::Cop => SheetRegion::new(0, 177, 480, 0, 14, 18),
        Job::Regular => SheetRegion::new(0, 100, 480, 0, 14, 18),
    }
}

impl Game {
    /// Lays the in-game scene out for the renderer: the transform and
    /// sheet region of every sprite, in slot order. The engine uploads
    /// these and draws the score text after them.
    #[verifier::rlimit(100)]
    #[verifier::spinoff_prover]
    pub fn render_layout(&self) -> (r: Vec<(Transform, SheetRegion)>)
        requires
            self.wf(),
        ensures
            r@ == street_scene_slots(*self),
    {
        let mut out: Vec<(Transform, SheetRegion)> = Vec::new();
        // set bg image
        out.push(
            (
                Transform::from(
                    SPRITE { center: Vec2i { x: 38400, y: 64000 }, size: Vec2i { x: W, y: H } },
                ),
                SheetRegion::new(0, 0, 0, 16, 640, 480),
            ),
        );
        // set walls
        let mut i: usize = 0;
        while i < self.walls.len()
            invariant
                self.wf(),
                i <= self.walls@.len(),
                out@ == seq![(bg_slot())] + wall_slots(self.walls@.take(i as int)),
            decreases self.walls@.len() - i,
        {
            let w = self.walls[i];
            out.push((Transform::from(w), SheetRegion::new(0, 0, 480, 12, 8, 8)));
            proof {
                assert(self.walls@.take(i + 1) =~= self.walls@.take(i as int).push(
                    self.walls@[i as int],
                ));
                assert(out@ =~= seq![(bg_slot())] + wall_slots(self.walls@.take(i + 1)));
            }
            i += 1;
        }
        proof {
            assert(self.walls@.take(self.walls@.len() as int) =~= self.walls@);
        }
        // set the rider-counter frame
        out.push(
            (
                Transform::from(
                    SPRITE {
                        center: Vec2i { x: 72800, y: 98000 },
                        size: Vec2i { x: 6000, y: 50000 },
                    },
                ),
                SheetRegion::new(0, 312, 501, 1, 40, 309),
            ),
        );
        // set bus
        out.push(
            (
                Transform::from(
                    SPRITE { center: self.bus.pos, size: Vec2i { x: 6000, y: 13000 } },
                ),
                SheetRegion::new(0, 8, 532, 1, 25, 42),
            ),
        );
        let ghost head = seq![(bg_slot())] + wall_slots(self.walls@) + seq![
            (counter_frame_slot()),
            bus_slot(self.bus.pos),
        ];
        proof {
            assert(out@ =~= head);
        }
        // set pavement
        let mut i: usize = 0;
        while i < self.pavements.len()
            invariant
                self.wf(),
                i <= self.pavements@.len(),
                out@ == head + pavement_slots(self.pavements@.take(i as int)),
            decreases self.pavements@.len() - i,
        {
            let p = self.pavements[i];
            out.push(
                (
                    Transform::from(SPRITE { center: p.pos, size: Vec2i { x: 30000, y: H } }),
                    SheetRegion::new(0, 640, 0, 5, 45, 748),
                ),
            );
            proof {
                assert(self.pavements@.take(i + 1) =~= self.pavements@.take(i as int).push(
                    self.pavements@[i as int],
                ));
                assert(out@ =~= head + pavement_slots(self.pavements@.take(i + 1)));
            }
            i += 1;
        }
        proof {
            assert(self.pavements@.take(self.pavements@.len() as int) =~= self.pavements@);
        }
        let ghost head2 = head + pavement_slots(self.pavements@);
        // set animal
        let mut i: usize = 0;
        while i < self.animals.len()
            invariant
                self.wf(),
                i <= self.animals@.len(),
                out@ == head2 + animal_slots(self.animals@, self.animal_kinds@).take(i as int),
            decreases self.animals@.len() - i,
        {
            let a = self.animals[i];
            let cell = animal_cell_of(self.animal_kinds[i]);
            out.push(
                (
                    Transform::from(SPRITE { center: a.pos, size: Vec2i { x: 3840, y: 6533 } }),
                    cell,
                ),
            );
            proof {
                let slots = animal_slots(self.animals@, self.animal_kinds@);
                assert(slots.take(i + 1) =~= slots.take(i as int).push(slots[i as int]));
                assert(out@ =~= head2 + slots.take(i + 1));
            }
            i += 1;
        }
        proof {
            let slots = animal_slots(self.animals@, self.animal_kinds@);
            assert(slots.take(slots.len() as int) =~= slots);
        }
        let ghost head3 = head2 + animal_slots(self.animals@, self.animal_kinds@);
        // set people, animated by the walk cycle
        let ones_place = self.curr_frame % 10;
        let mut i: usize = 0;
        while i < self.people.len()
            invariant
                self.wf(),
                i <= self.people@.len(),
                ones_place == self.curr_frame % 10,
                out@ == head3 + person_slots(self.people@, self.people_jobs@, self.curr_frame).take(
                    i as int,
                ),
            decreases self.people@.len() - i,
        {
            let p = self.people[i];
            let cell = person_cell_of(self.people_jobs[i], ones_place);
            out.push(
                (
                    Transform::from(SPRITE { center: p.pos, size: Vec2i { x: 3840, y: 6533 } }),
                    cell,
                ),
            );
            proof {
                let slots = person_slots(self.people@, self.people_jobs@, self.curr_frame);
                assert(slots.take(i + 1) =~= slots.take(i as int).push(slots[i as int]));
                assert(out@ =~= head3 + slots.take(i + 1));
            }
            i += 1;
        }
        proof {
            let slots = person_slots(self.people@, self.people_jobs@, self.curr_frame);
            assert(slots.take(slots.len() as int) =~= slots);
        }
        let ghost head4 = head3 + person_slots(self.people@, self.people_jobs@, self.curr_frame);
        // set building
        let mut i: usize = 0;
        while i < self.buildings.len()
            invariant
                self.wf(),
                i <= self.buildings@.len(),
                out@ == head4 + building_slots(self.buildings@, self.building_jobs@).take(i as int),
            decreases self.buildings@.len() - i,
        {
            let b = self.buildings[i];
            let cell = building_cell_of(self.building_jobs[i]);
            out.push(
                (
                    Transform::from(SPRITE { center: b.pos, size: Vec2i { x: 6000, y: 8000 } }),
                    cell,
                ),
            );
            proof {
                let slots = building_slots(self.buildings@, self.building_jobs@);
                assert(slots.take(i + 1) =~= slots.take(i as int).push(slots[i as int]));
                assert(out@ =~= head4 + slots.take(i + 1));
            }
            i += 1;
        }
        proof {
            let slots = building_slots(self.buildings@, self.building_jobs@);
            assert(slots.take(slots.len() as int) =~= slots);
        }
        let ghost head5 = head4 + building_slots(self.buildings@, self.building_jobs@);
        // set the riders in their seats down the counter frame
        let mut i: usize = 0;
        while i < self.on_bus.len()
            invariant
                self.wf(),
                i <= self.on_bus@.len(),
                out@ == head5 + seat_slots(self.on_bus@).take(i as int),
            decreases self.on_bus@.len() - i,
        {
            let seat_y = H - 12000 - 9000 * (i as i64);
            let cell = seat_cell_of(self.on_bus[i]);
            out.push(
                (
                    Transform::from(
                        SPRITE {
                            center: Vec2i { x: 72800, y: seat_y },
                            size: Vec2i { x: 3840, y: 6533 },
                        },
                    ),
                    cell,
                ),
            );
            proof {
                let slots = seat_slots(self.on_bus@);
                assert(slots.take(i + 1) =~= slots.take(i as int).push(slots[i as int]));
                assert(out@ =~= head5 + slots.take(i + 1));
            }
            i += 1;
        }
        proof {
            let slots = seat_slots(self.on_bus@);
            assert(slots.take(slots.len() as int) =~= slots);
            assert(out@ =~= street_scene_slots(*self));
        }
        out
    }
}

/// A uniformly random line of work.
fn random_job() -> (r: Job)
{
    match rand_range_u32(0, 4) {
        0 => Job::Doctor,
        1 => Job::Firefighter,
        2 => Job::Regular,
        _ => Job::Cop,
    }
}

/// The seat of the first passenger with the wanted job, if one rides.
fn first_job(list: &Vec<Job>, wanted: Job) -> (r: Option<usize>)
    ensures
        r matches Some(idx) ==> idx < list@.len() && list@[idx as int] == wanted && forall|j: int|
            0 <= j < idx ==> list@[j] != wanted,
        r is None ==> forall|j: int| 0 <= j < list@.len() ==> list@[j] != wanted,
        r matches Some(idx) ==> idx as int == job_hit(list@, wanted),
        r is None ==> job_hit(list@, wanted) == -1,
{
    let n = list.len();
    let mut i: usize = 0;
    while i < n
        invariant
            n == list@.len(),
            i <= n,
            forall|j: int| 0 <= j < i ==> list@[j] != wanted,
        decreases n - i,
    {
        if list[i] == wanted {
            proof {
                lemma_job_hit_found(list@, wanted, 0, i as int);
            }
            return Some(i);
        }
        i += 1;
    }
    proof {
        lemma_job_hit_none(list@, wanted, 0);
    }
    None
}

} // verus!
