//! The player's motion, frame by frame.
//!
//! Each frame the controller reads the input, starts a jump if one is asked
//! for and allowed, works out the velocity on both axes, moves its rectangle
//! against the grid and classifies the contacts for the next frame.

use vstd::prelude::*;
use crate::easing::Easing;
use crate::jump::{after_step, lemma_step_wf, step_velocity, ArcView, JumpArc};
use crate::map::{Collision, TileMap};
use crate::rect::{Rect, RectView};
use crate::units::{lemma_product_bound, within_limit, COORD_LIMIT, TIME_LIMIT};

verus! {

/// Largest magnitude of a configured speed or acceleration, in position
/// units per tick. At this speed a step of `TIME_LIMIT` ticks still moves no
/// further than `COORD_LIMIT`.
pub const SPEED_LIMIT: i64 = 0x1000_0000;

/// What the player asks for in one frame.
#[derive(Debug, Clone, Copy, PartialEq, Eq, Structural)]
pub struct Input {
    /// The left key is down.
    pub left: bool,
    /// The right key is down.
    pub right: bool,
    /// The jump key went down this frame.
    pub jump_pressed: bool,
    /// The jump key is down.
    pub jump_held: bool,
}

/// A side of the player's rectangle.
#[derive(Debug, Clone, Copy, PartialEq, Eq, Structural)]
pub enum Side {
    Left,
    Right,
}

/// Where the player stands, as the contact flags tell it.
#[derive(Debug, Clone, Copy, PartialEq, Eq, Structural)]
pub enum MotionState {
    Grounded,
    Airborne,
    WallSliding(Side),
}

/// Height and duration of one kind of jump.
#[derive(Debug, Clone, Copy, PartialEq, Eq, Structural)]
pub struct JumpParams {
    pub height: i64,
    pub length: i64,
}

/// The tunable numbers of the controller. Speeds are in position units per
/// tick, accelerations in position units per tick per tick.
#[derive(Debug, Clone, Copy, PartialEq, Eq, Structural)]
pub struct PlayerConfig {
    /// Downward speed gained per tick while no jump is in flight.
    pub gravity: i64,
    /// Lowest vertical speed that gravity leaves.
    pub min_dy: i64,
    /// Highest vertical speed that gravity leaves.
    pub max_dy: i64,
    /// Horizontal speed gained per tick toward the input, on the floor.
    pub floor_turn: i64,
    /// Horizontal speed gained per tick toward the input, off the floor.
    pub air_turn: i64,
    /// Horizontal speed lost per tick without input, on the floor.
    pub floor_stop: i64,
    /// Horizontal speed lost per tick without input, off the floor.
    pub air_stop: i64,
    /// Highest horizontal speed, in either direction.
    pub max_dx: i64,
    /// The jump from the floor.
    pub ground_jump: JumpParams,
    /// The jump off a wall.
    pub wall_jump: JumpParams,
    /// The second jump in the air.
    pub double_jump: JumpParams,
    /// Horizontal speed away from the wall that a wall jump gives.
    pub wall_push: i64,
    /// Highest downward speed while touching a wall.
    pub slide_speed: i64,
}

impl JumpParams {
    /// A height that is not negative and a duration of at least one tick,
    /// both within the limits.
    pub open spec fn valid(self) -> bool {
        0 <= self.height <= COORD_LIMIT && 0 < self.length <= TIME_LIMIT
    }

    /// Whether the parameters are valid.
    pub fn is_valid(&self) -> (ok: bool)
        ensures
            ok == self.valid(),
    {
        0 <= self.height && self.height <= COORD_LIMIT && 0 < self.length && self.length
            <= TIME_LIMIT
    }
}

/// A speed or an acceleration that is not negative and within `SPEED_LIMIT`.
pub open spec fn rate(v: int) -> bool {
    0 <= v <= SPEED_LIMIT
}

impl PlayerConfig {
    /// Every rate is within `SPEED_LIMIT`, the terminal speeds are in order,
    /// and the three jumps are valid.
    pub open spec fn valid(self) -> bool {
        &&& -SPEED_LIMIT <= self.gravity <= SPEED_LIMIT
        &&& -SPEED_LIMIT <= self.min_dy <= self.max_dy <= SPEED_LIMIT
        &&& rate(self.floor_turn as int)
        &&& rate(self.air_turn as int)
        &&& rate(self.floor_stop as int)
        &&& rate(self.air_stop as int)
        &&& rate(self.max_dx as int)
        &&& rate(self.wall_push as int)
        &&& rate(self.slide_speed as int)
        &&& self.ground_jump.valid()
        &&& self.wall_jump.valid()
        &&& self.double_jump.valid()
    }

    /// Whether the configuration is valid.
    pub fn is_valid(&self) -> (ok: bool)
        ensures
            ok == self.valid(),
    {
        -SPEED_LIMIT <= self.gravity && self.gravity <= SPEED_LIMIT && -SPEED_LIMIT <= self.min_dy
            && self.min_dy <= self.max_dy && self.max_dy <= SPEED_LIMIT && 0 <= self.floor_turn
            && self.floor_turn <= SPEED_LIMIT && 0 <= self.air_turn && self.air_turn <= SPEED_LIMIT
            && 0 <= self.floor_stop && self.floor_stop <= SPEED_LIMIT && 0 <= self.air_stop
            && self.air_stop <= SPEED_LIMIT && 0 <= self.max_dx && self.max_dx <= SPEED_LIMIT && 0
            <= self.wall_push && self.wall_push <= SPEED_LIMIT && 0 <= self.slide_speed
            && self.slide_speed <= SPEED_LIMIT && self.ground_jump.is_valid()
            && self.wall_jump.is_valid() && self.double_jump.is_valid()
    }
}

/// The player's state as mathematical values.
pub struct PlayerView {
    pub rect: RectView,
    pub dx: int,
    pub dy: int,
    pub on_floor: bool,
    pub sliding_on_wall: Option<Side>,
    pub can_double_jump: bool,
    pub arc: ArcView,
}

/// `v` held between `lo` and `hi`.
pub open spec fn clamp(v: int, lo: int, hi: int) -> int {
    if v < lo {
        lo
    } else if v > hi {
        hi
    } else {
        v
    }
}

impl PlayerView {
    /// Grounded on the floor, else sliding on a wall it touches, else
    /// airborne.
    pub open spec fn state(self) -> MotionState {
        if self.on_floor {
            MotionState::Grounded
        } else {
            match self.sliding_on_wall {
                Some(side) => MotionState::WallSliding(side),
                None => MotionState::Airborne,
            }
        }
    }

    /// Both speeds within `COORD_LIMIT` and the arc well-formed.
    pub open spec fn wf(self) -> bool {
        &&& within_limit(self.dx)
        &&& within_limit(self.dy)
        &&& self.arc.wf()
    }
}

/// The jump input. On the frame the jump key goes down: from the floor the
/// ground jump starts; else on a wall the wall jump starts, the player is
/// pushed away from the wall and may jump once more in the air; else a
/// player who may still jump in the air starts the double jump and may not
/// do so again. Otherwise nothing changes.
pub open spec fn jump_phase(p: PlayerView, cfg: PlayerConfig, input: Input) -> PlayerView {
    if !input.jump_pressed {
        p
    } else {
        match p.state() {
            MotionState::Grounded => PlayerView {
                arc: ArcView::started(cfg.ground_jump.height as int, cfg.ground_jump.length as int),
                ..p
            },
            MotionState::WallSliding(side) => PlayerView {
                arc: ArcView::started(cfg.wall_jump.height as int, cfg.wall_jump.length as int),
                dx: match side {
                    Side::Left => cfg.wall_push as int,
                    Side::Right => -cfg.wall_push,
                },
                can_double_jump: true,
                ..p
            },
            MotionState::Airborne => if p.can_double_jump {
                PlayerView {
                    arc: ArcView::started(
                        cfg.double_jump.height as int,
                        cfg.double_jump.length as int,
                    ),
                    can_double_jump: false,
                    ..p
                }
            } else {
                p
            },
        }
    }
}

/// Vertical speed. With no jump in flight gravity adds to it and the
/// terminal speeds bound it; in a jump the arc takes a step and gives it.
pub open spec fn vertical_phase<E: Easing>(
    e: E,
    p: PlayerView,
    cfg: PlayerConfig,
    input: Input,
    dt: int,
) -> PlayerView {
    if p.arc.is_done {
        PlayerView { dy: clamp(p.dy + cfg.gravity * dt, cfg.min_dy as int, cfg.max_dy as int), ..p }
    } else {
        PlayerView {
            dy: step_velocity(e, p.arc, dt, input.jump_held),
            arc: after_step(e, p.arc, dt, input.jump_held),
            ..p
        }
    }
}

/// Horizontal speed after one frame, before the bound. With one direction
/// key down the speed gains the turn rate toward it; with none, or both, it
/// loses the stop rate toward zero and does not cross it.
pub open spec fn steer(dx: int, turn: int, stop: int, input: Input, dt: int) -> int {
    if input.left && !input.right {
        dx - turn * dt
    } else if input.right && !input.left {
        dx + turn * dt
    } else if dx > 0 {
        if dx - stop * dt < 0 {
            0
        } else {
            dx - stop * dt
        }
    } else {
        if dx + stop * dt > 0 {
            0
        } else {
            dx + stop * dt
        }
    }
}

/// Horizontal speed: steered at the rates of the floor or of the air, then
/// held within the highest speed.
pub open spec fn horizontal_phase(p: PlayerView, cfg: PlayerConfig, input: Input, dt: int) -> PlayerView {
    let turn = if p.on_floor {
        cfg.floor_turn
    } else {
        cfg.air_turn
    };
    let stop = if p.on_floor {
        cfg.floor_stop
    } else {
        cfg.air_stop
    };
    PlayerView {
        dx: clamp(steer(p.dx, turn as int, stop as int, input, dt), -cfg.max_dx, cfg.max_dx as int),
        ..p
    }
}

/// What the contacts of the move mean for the next frame. The floor stops
/// the fall and gives back the jump in the air. A ceiling stops the rise and
/// ends the jump. A wall on either side marks the player as sliding on it and
/// holds the fall to the slide speed.
pub open spec fn contact_phase(
    p: PlayerView,
    cfg: PlayerConfig,
    moved: RectView,
    c: Collision,
) -> PlayerView {
    let dy_floor = if c.bottom {
        0
    } else {
        p.dy
    };
    let dy_ceiling = if c.top && dy_floor < 0 {
        0
    } else {
        dy_floor
    };
    let sliding = if c.left {
        Some(Side::Left)
    } else if c.right {
        Some(Side::Right)
    } else {
        None
    };
    let dy_wall = if sliding is Some && dy_ceiling > cfg.slide_speed {
        cfg.slide_speed as int
    } else {
        dy_ceiling
    };
    PlayerView {
        rect: moved,
        dx: p.dx,
        dy: dy_wall,
        on_floor: c.bottom,
        sliding_on_wall: sliding,
        can_double_jump: p.can_double_jump || c.bottom,
        arc: if c.top {
            ArcView { is_done: true, ..p.arc }
        } else {
            p.arc
        },
    }
}

/// The speeds with which the frame moves the player: the state after the
/// jump input, the vertical and the horizontal phase.
pub open spec fn steered<E: Easing>(
    e: E,
    p: PlayerView,
    cfg: PlayerConfig,
    input: Input,
    dt: int,
) -> PlayerView {
    horizontal_phase(vertical_phase(e, jump_phase(p, cfg, input), cfg, input, dt), cfg, input, dt)
}

/// The player after one frame of `dt` ticks on `map`.
pub open spec fn next_frame<E: Easing>(
    e: E,
    map: &TileMap,
    p: PlayerView,
    cfg: PlayerConfig,
    input: Input,
    dt: int,
) -> PlayerView {
    let s = steered(e, p, cfg, input, dt);
    let (moved, c) = map.resolve(s.rect, s.dx, s.dy, dt);
    contact_phase(s, cfg, moved, c)
}

/// The speeds that a frame moves with are within the limits that the
/// collision resolver asks for, and the state stays well-formed.
pub proof fn lemma_steered_fits<E: Easing>(
    e: E,
    p: PlayerView,
    cfg: PlayerConfig,
    input: Input,
    dt: int,
)
    requires
        p.wf(),
        cfg.valid(),
        0 < dt <= TIME_LIMIT,
    ensures
        steered(e, p, cfg, input, dt).wf(),
        steered(e, p, cfg, input, dt).rect == p.rect,
        within_limit(steered(e, p, cfg, input, dt).dx * dt),
        within_limit(steered(e, p, cfg, input, dt).dy * dt),
{
    let j = jump_phase(p, cfg, input);
    assert(j.wf());
    let v = vertical_phase(e, j, cfg, input, dt);
    if j.arc.is_done {
        lemma_product_bound(v.dy, dt, SPEED_LIMIT as int, TIME_LIMIT as int);
    } else {
        lemma_step_wf(e, j.arc, dt, input.jump_held);
        crate::jump::lemma_step_velocity_bound(e, j.arc, dt, input.jump_held);
    }
    let h = horizontal_phase(v, cfg, input, dt);
    lemma_product_bound(h.dx, dt, SPEED_LIMIT as int, TIME_LIMIT as int);
    assert(SPEED_LIMIT * TIME_LIMIT == COORD_LIMIT);
}

/// After any frame the horizontal speed is within the highest speed, a
/// player on the floor does not fall and may jump in the air again, a player
/// touching a wall falls no faster than the slide speed, and a jump that met
/// the ceiling is over.
pub proof fn lemma_frame_outcome<E: Easing>(
    e: E,
    map: &TileMap,
    p: PlayerView,
    cfg: PlayerConfig,
    input: Input,
    dt: int,
)
    requires
        p.wf(),
        cfg.valid(),
        0 < dt <= TIME_LIMIT,
    ensures
        ({
            let n = next_frame(e, map, p, cfg, input, dt);
            let s = steered(e, p, cfg, input, dt);
            let c = map.resolve(s.rect, s.dx, s.dy, dt).1;
            &&& n.wf()
            &&& -cfg.max_dx <= n.dx <= cfg.max_dx
            &&& n.on_floor == c.bottom
            &&& n.on_floor ==> n.dy == 0 && n.can_double_jump && n.state() == MotionState::Grounded
            &&& n.sliding_on_wall is Some <==> c.left || c.right
            &&& n.sliding_on_wall is Some ==> n.dy <= cfg.slide_speed
            &&& c.top ==> n.arc.is_done && n.dy >= 0
            &&& n.rect.width == p.rect.width && n.rect.height == p.rect.height
        }),
{
    lemma_steered_fits(e, p, cfg, input, dt);
    let s = steered(e, p, cfg, input, dt);
    map.lemma_resolve_keeps_size(s.rect, s.dx, s.dy, dt);
}

/// The player: a rectangle, its velocity, the contact flags of the last
/// frame and the jump in flight.
pub struct PlayerController<E: Easing> {
    rect: Rect,
    dx: i64,
    dy: i64,
    on_floor: bool,
    sliding_on_wall: Option<Side>,
    can_double_jump: bool,
    arc: JumpArc<E>,
    config: PlayerConfig,
}

impl<E: Easing> View for PlayerController<E> {
    type V = PlayerView;

    closed spec fn view(&self) -> PlayerView {
        PlayerView {
            rect: self.rect@,
            dx: self.dx as int,
            dy: self.dy as int,
            on_floor: self.on_floor,
            sliding_on_wall: self.sliding_on_wall,
            can_double_jump: self.can_double_jump,
            arc: self.arc@,
        }
    }
}

impl<E: Easing> PlayerController<E> {
    /// The tunable numbers.
    pub closed spec fn config(&self) -> PlayerConfig {
        self.config
    }

    /// The curve of the jumps.
    pub closed spec fn easing(&self) -> E {
        self.arc.easing()
    }

    /// The state is well-formed and the configuration valid.
    pub open spec fn wf(&self) -> bool {
        self@.wf() && self.config().valid()
    }

    /// A player at rest in `rect`: no velocity, no contact, no jump in
    /// flight and none owed in the air.
    pub fn new(rect: Rect, config: PlayerConfig, easing: E) -> (p: PlayerController<E>)
        requires
            config.valid(),
        ensures
            p.wf(),
            p.config() == config,
            p.easing() == easing,
            p@ == (PlayerView {
                rect: rect@,
                dx: 0,
                dy: 0,
                on_floor: false,
                sliding_on_wall: None,
                can_double_jump: false,
                arc: ArcView::idle(),
            }),
    {
        PlayerController {
            rect,
            dx: 0,
            dy: 0,
            on_floor: false,
            sliding_on_wall: None,
            can_double_jump: false,
            arc: JumpArc::new(easing),
            config,
        }
    }

    /// The player's rectangle.
    pub fn rect(&self) -> (r: Rect)
        ensures
            r@ == self@.rect,
    {
        self.rect
    }

    /// Horizontal velocity.
    pub fn dx(&self) -> (v: i64)
        ensures
            v == self@.dx,
    {
        self.dx
    }

    /// Vertical velocity, downward being positive.
    pub fn dy(&self) -> (v: i64)
        ensures
            v == self@.dy,
    {
        self.dy
    }

    /// Whether the last frame ended on the floor.
    pub fn on_floor(&self) -> (b: bool)
        ensures
            b == self@.on_floor,
    {
        self.on_floor
    }

    /// The wall that the last frame ran into, if any.
    pub fn sliding_on_wall(&self) -> (s: Option<Side>)
        ensures
            s == self@.sliding_on_wall,
    {
        self.sliding_on_wall
    }

    /// Whether a jump in the air is still owed.
    pub fn can_double_jump(&self) -> (b: bool)
        ensures
            b == self@.can_double_jump,
    {
        self.can_double_jump
    }

    /// Whether a jump is in flight.
    pub fn is_jumping(&self) -> (b: bool)
        ensures
            b == !self@.arc.is_done,
    {
        !self.arc.is_done()
    }

    /// Grounded, wall-sliding or airborne.
    pub fn state(&self) -> (s: MotionState)
        ensures
            s == self@.state(),
    {
        if self.on_floor {
            MotionState::Grounded
        } else {
            match self.sliding_on_wall {
                Some(side) => MotionState::WallSliding(side),
                None => MotionState::Airborne,
            }
        }
    }

    /// Whether `update` accepts a frame of `dt` ticks now: the rectangle is
    /// in bounds and the step lasts between one tick and `TIME_LIMIT`.
    pub fn can_update(&self, dt: i64) -> (ok: bool)
        ensures
            ok == (self@.rect.in_bounds() && 0 < dt <= TIME_LIMIT),
    {
        self.rect.in_bounds() && 0 < dt && dt <= TIME_LIMIT
    }

    /// Starts a jump if the input asks for one and the state allows it.
    fn apply_jump(&mut self, input: Input)
        requires
            old(self).wf(),
        ensures
            final(self).wf(),
            final(self)@ == jump_phase(old(self)@, old(self).config(), input),
            final(self).config() == old(self).config(),
            final(self).easing() == old(self).easing(),
    {
        if input.jump_pressed {
            match self.state() {
                MotionState::Grounded => {
                    self.arc.start(self.config.ground_jump.height, self.config.ground_jump.length);
                },
                MotionState::WallSliding(side) => {
                    self.arc.start(self.config.wall_jump.height, self.config.wall_jump.length);
                    self.dx = match side {
                        Side::Left => self.config.wall_push,
                        Side::Right => -self.config.wall_push,
                    };
                    self.can_double_jump = true;
                },
                MotionState::Airborne => {
                    if self.can_double_jump {
                        self.arc.start(
                            self.config.double_jump.height,
                            self.config.double_jump.length,
                        );
                        self.can_double_jump = false;
                    }
                },
            }
        }
    }

    /// Works out the vertical speed of the frame.
    fn apply_vertical(&mut self, input: Input, dt: i64)
        requires
            old(self).wf(),
            0 < dt <= TIME_LIMIT,
        ensures
            final(self).wf(),
            final(self)@ == vertical_phase(
                old(self).easing(),
                old(self)@,
                old(self).config(),
                input,
                dt as int,
            ),
            final(self).config() == old(self).config(),
            final(self).easing() == old(self).easing(),
    {
        if self.arc.is_done() {
            proof {
                lemma_product_bound(
                    self.config.gravity as int,
                    dt as int,
                    SPEED_LIMIT as int,
                    TIME_LIMIT as int,
                );
                assert(SPEED_LIMIT * TIME_LIMIT == COORD_LIMIT);
            }
            let fallen = self.dy + self.config.gravity * dt;
            self.dy = if fallen < self.config.min_dy {
                self.config.min_dy
            } else if fallen > self.config.max_dy {
                self.config.max_dy
            } else {
                fallen
            };
        } else {
            proof {
                crate::jump::lemma_step_velocity_bound(
                    self.arc.easing(),
                    self.arc@,
                    dt as int,
                    input.jump_held,
                );
            }
            self.dy = self.arc.step(dt, input.jump_held);
        }
    }

    /// Works out the horizontal speed of the frame.
    fn apply_horizontal(&mut self, input: Input, dt: i64)
        requires
            old(self).wf(),
            0 < dt <= TIME_LIMIT,
        ensures
            final(self).wf(),
            final(self)@ == horizontal_phase(old(self)@, old(self).config(), input, dt as int),
            final(self).config() == old(self).config(),
            final(self).easing() == old(self).easing(),
    {
        let turn = if self.on_floor {
            self.config.floor_turn
        } else {
            self.config.air_turn
        };
        let stop = if self.on_floor {
            self.config.floor_stop
        } else {
            self.config.air_stop
        };
        proof {
            lemma_product_bound(turn as int, dt as int, SPEED_LIMIT as int, TIME_LIMIT as int);
            lemma_product_bound(stop as int, dt as int, SPEED_LIMIT as int, TIME_LIMIT as int);
            assert(SPEED_LIMIT * TIME_LIMIT == COORD_LIMIT);
        }
        let steered = if input.left && !input.right {
            self.dx - turn * dt
        } else if input.right && !input.left {
            self.dx + turn * dt
        } else if self.dx > 0 {
            if self.dx - stop * dt < 0 {
                0
            } else {
                self.dx - stop * dt
            }
        } else {
            if self.dx + stop * dt > 0 {
                0
            } else {
                self.dx + stop * dt
            }
        };
        self.dx = if steered < -self.config.max_dx {
            -self.config.max_dx
        } else if steered > self.config.max_dx {
            self.config.max_dx
        } else {
            steered
        };
    }

    /// Takes the contacts of the move into the state.
    fn apply_contacts(&mut self, c: Collision)
        requires
            old(self).wf(),
        ensures
            final(self).wf(),
            final(self)@ == contact_phase(old(self)@, old(self).config(), old(self)@.rect, c),
            final(self).config() == old(self).config(),
            final(self).easing() == old(self).easing(),
    {
        self.on_floor = c.bottom;
        if c.bottom {
            self.dy = 0;
            self.can_double_jump = true;
        }
        if c.top {
            if self.dy < 0 {
                self.dy = 0;
            }
            self.arc.stop();
        }
        self.sliding_on_wall = if c.left {
            Some(Side::Left)
        } else if c.right {
            Some(Side::Right)
        } else {
            None
        };
        if self.sliding_on_wall.is_some() && self.dy > self.config.slide_speed {
            self.dy = self.config.slide_speed;
        }
    }

    /// Plays one frame of `dt` ticks: jump input, vertical speed, horizontal
    /// speed, the move against `map`, and the contacts.
    pub fn update(&mut self, map: &TileMap, input: Input, dt: i64) -> (c: Collision)
        requires
            old(self).wf(),
            old(self)@.rect.in_bounds(),
            0 < dt <= TIME_LIMIT,
        ensures
            final(self).wf(),
            final(self).config() == old(self).config(),
            final(self).easing() == old(self).easing(),
            final(self)@ == next_frame(
                old(self).easing(),
                map,
                old(self)@,
                old(self).config(),
                input,
                dt as int,
            ),
            c == ({
                let s = steered(old(self).easing(), old(self)@, old(self).config(), input, dt as int);
                map.resolve(s.rect, s.dx, s.dy, dt as int).1
            }),
    {
        proof {
            lemma_steered_fits(self.easing(), self@, self.config(), input, dt as int);
        }
        self.apply_jump(input);
        self.apply_vertical(input, dt);
        self.apply_horizontal(input, dt);
        let c = map.move_item(&mut self.rect, self.dx, self.dy, dt);
        self.apply_contacts(c);
        c
    }
}

} // verus!
