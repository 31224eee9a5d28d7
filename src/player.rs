use vstd::prelude::*;
use crate::geometry::{
    Color, Rect, UNIT, Vec2, SUBPIXELS, in_world, to_world, unit_of, unit_vector, world,
};
use crate::input::{DEADZONE, FrameInput, TRIGGER_THRESHOLD};
use crate::projectile::Projectile;

verus! {

/// The side of a combatant's square hurtbox.
pub const HURTBOX: i64 = 30 * SUBPIXELS;

/// Half of `HURTBOX`: from a combatant's position to its centre, on each axis.
pub const HALF_HURTBOX: i64 = 15 * SUBPIXELS;

/// Horizontal speed per thousandth of stick deflection, in milli-pixels per second
/// (so 300 pixels per second at full deflection).
pub const MOVE_SPEED: i64 = 300;

/// Vertical velocity given by a jump, in milli-pixels per second.
pub const JUMP_VELOCITY: i64 = -550_000;

/// Projectile speed per thousandth of aim, in milli-pixels per second
/// (so 800 pixels per second).
pub const PROJECTILE_SPEED: i64 = 800;

/// Milliseconds between two shots of one combatant.
pub const SHOOT_COOLDOWN_MS: u32 = 500;

/// One human-controlled fighter.
#[derive(Clone, Copy, Debug, PartialEq, Eq, Structural)]
pub struct Player {
    /// Top-left corner of the hurtbox, in micro-pixels.
    pub pos: Vec2,
    /// Milli-pixels per second.
    pub vel: Vec2,
    pub color: Color,
    /// Resting on the floor, and so allowed to jump.
    pub grounded: bool,
    /// Which way the sprite faces.
    pub facing_left: bool,
    /// Control scheme and gamepad slot; also tags the projectiles it fires.
    pub input_id: i32,
    /// Direction of the next shot, a unit vector in thousandths.
    pub aim: Vec2,
    /// Milliseconds before the next shot is allowed.
    pub shoot_timer: u32,
}

/// What one frame of input asks of a combatant.
#[derive(Clone, Copy, Debug, PartialEq, Eq, Structural)]
pub struct Controls {
    /// Horizontal intent in thousandths: the sign is the way, 1000 a full push.
    pub direction: i64,
    /// The facing after this frame.
    pub facing_left: bool,
    /// A jump was requested.
    pub jump: bool,
    /// The aim after this frame.
    pub aim: Vec2,
    /// A shot was requested.
    pub fire: bool,
}

impl Controls {
    /// The bounds that the arithmetic on controls relies on.
    pub open spec fn wf(self) -> bool {
        &&& -0x8000 <= self.direction <= 0x8000
        &&& -UNIT <= self.aim.x <= UNIT
        &&& -UNIT <= self.aim.y <= UNIT
    }
}

/// The cooldown after `dt` milliseconds have passed, stopping at zero.
pub open spec fn cooled(timer: u32, dt: u32) -> u32 {
    if timer > dt {
        (timer - dt) as u32
    } else {
        0
    }
}

impl Player {
    /// A combatant within the world, aiming with a unit vector.
    pub open spec fn wf(self) -> bool {
        &&& in_world(self.pos)
        &&& -UNIT <= self.aim.x <= UNIT
        &&& -UNIT <= self.aim.y <= UNIT
    }

    /// The hurtbox.
    pub open spec fn hurtbox(self) -> Rect {
        Rect { x: self.pos.x, y: self.pos.y, width: HURTBOX, height: HURTBOX }
    }

    /// The centre of the hurtbox.
    pub open spec fn middle(self) -> Vec2 {
        Vec2 { x: (self.pos.x + HALF_HURTBOX) as i64, y: (self.pos.y + HALF_HURTBOX) as i64 }
    }

    /// A combatant at rest at `(x, y)` (saturated to the world), aiming right.
    pub open spec fn spawned(id: i32, x: int, y: int, color: Color) -> Player {
        Player {
            pos: Vec2 { x: world(x) as i64, y: world(y) as i64 },
            vel: Vec2 { x: 0, y: 0 },
            color,
            grounded: false,
            facing_left: false,
            input_id: id,
            aim: Vec2 { x: UNIT, y: 0 },
            shoot_timer: 0,
        }
    }

    /// A combatant at rest at `(x, y)` (saturated to the world), aiming right.
    pub fn new(id: i32, x: i64, y: i64, color: Color) -> (r: Player)
        ensures
            r == Player::spawned(id, x as int, y as int, color),
            r.wf(),
    {
        Player {
            pos: Vec2 { x: to_world(x as i128), y: to_world(y as i128) },
            vel: Vec2::zero(),
            color,
            grounded: false,
            facing_left: false,
            input_id: id,
            aim: Vec2 { x: UNIT, y: 0 },
            shoot_timer: 0,
        }
    }

    /// The hurtbox: a square of side `HURTBOX` anchored at the position.
    pub fn rect(&self) -> (r: Rect)
        ensures
            r == self.hurtbox(),
    {
        Rect { x: self.pos.x, y: self.pos.y, width: HURTBOX, height: HURTBOX }
    }

    /// The centre of the hurtbox.
    pub fn center(&self) -> (r: Vec2)
        requires
            self.wf(),
        ensures
            r == self.middle(),
    {
        Vec2 { x: self.pos.x + HALF_HURTBOX, y: self.pos.y + HALF_HURTBOX }
    }

    /// The horizontal deflection of this combatant's left stick, past the deadzone.
    pub open spec fn stick_direction(self, input: FrameInput) -> Option<i16> {
        let pad = input.gamepad(self.input_id as int);
        if pad is Some && (pad->Some_0.left_x > DEADZONE || pad->Some_0.left_x < -DEADZONE) {
            Some(pad->Some_0.left_x)
        } else {
            None
        }
    }

    /// The bound "left" key is held: A for combatant 0, the left arrow for combatant 1.
    pub open spec fn key_left(self, input: FrameInput) -> bool {
        (self.input_id == 0 && input.keys.a_down) || (self.input_id == 1 && input.keys.left_down)
    }

    /// The bound "right" key is held: D for combatant 0, the right arrow for combatant 1.
    pub open spec fn key_right(self, input: FrameInput) -> bool {
        (self.input_id == 0 && input.keys.d_down) || (self.input_id == 1
            && input.keys.right_down)
    }

    /// Horizontal intent: a held key wins over the stick, "right" over "left".
    pub open spec fn direction_of(self, input: FrameInput) -> int {
        if self.key_right(input) {
            UNIT as int
        } else if self.key_left(input) {
            -UNIT
        } else if self.stick_direction(input) is Some {
            self.stick_direction(input)->Some_0 as int
        } else {
            0
        }
    }

    /// Facing after this frame: toward the intended direction, unchanged without one.
    pub open spec fn facing_of(self, input: FrameInput) -> bool {
        if self.key_right(input) {
            false
        } else if self.key_left(input) {
            true
        } else if self.stick_direction(input) is Some {
            self.stick_direction(input)->Some_0 < 0
        } else {
            self.facing_left
        }
    }

    /// A jump was requested by any device bound to this combatant.
    pub open spec fn jump_requested(self, input: FrameInput) -> bool {
        let pad = input.gamepad(self.input_id as int);
        ||| pad is Some && pad->Some_0.jump_pressed
        ||| self.input_id == 0 && (input.keys.w_pressed || input.keys.space_pressed)
        ||| self.input_id == 1 && (input.keys.up_pressed || input.keys.right_control_pressed)
    }

    /// A shot was requested by any device bound to this combatant: the trigger, the
    /// mouse button (combatant 0) or Enter (combatant 1).
    pub open spec fn fire_requested(self, input: FrameInput) -> bool {
        let pad = input.gamepad(self.input_id as int);
        ||| pad is Some && pad->Some_0.right_trigger > TRIGGER_THRESHOLD
        ||| self.input_id == 0 && input.mouse.left_pressed
        ||| self.input_id == 1 && input.keys.enter_pressed
    }

    /// The right stick is deflected past the deadzone.
    pub open spec fn stick_aims(self, input: FrameInput) -> bool {
        let pad = input.gamepad(self.input_id as int);
        pad is Some && pad->Some_0.right_x * pad->Some_0.right_x + pad->Some_0.right_y
            * pad->Some_0.right_y > DEADZONE * DEADZONE
    }

    /// Aim after this frame: the right stick first; else, for combatant 0, toward the
    /// mouse; else unchanged.
    pub open spec fn aim_of(self, input: FrameInput) -> Vec2 {
        let pad = input.gamepad(self.input_id as int);
        let dx = input.mouse.point().x - self.middle().x;
        let dy = input.mouse.point().y - self.middle().y;
        if self.stick_aims(input) {
            unit_of(pad->Some_0.right_x as int, pad->Some_0.right_y as int)
        } else if self.input_id == 0 && (dx != 0 || dy != 0) {
            unit_of(dx, dy)
        } else {
            self.aim
        }
    }

    /// Everything that one frame of input asks of this combatant.
    pub open spec fn controls_of(self, input: FrameInput) -> Controls {
        Controls {
            direction: self.direction_of(input) as i64,
            facing_left: self.facing_of(input),
            jump: self.jump_requested(input),
            aim: self.aim_of(input),
            fire: self.fire_requested(input),
        }
    }

    /// Reads what the devices bound to this combatant ask of it this frame.
    pub fn read_controls(&self, input: &FrameInput) -> (r: Controls)
        requires
            self.wf(),
        ensures
            r == self.controls_of(*input),
            r.wf(),
    {
        let id = self.input_id;
        let pad = input.gamepad_for(id);
        let keys = &input.keys;
        let key_left = (id == 0 && keys.a_down) || (id == 1 && keys.left_down);
        let key_right = (id == 0 && keys.d_down) || (id == 1 && keys.right_down);
        let mut direction: i64 = 0;
        let mut facing_left = self.facing_left;
        let mut jump = (id == 0 && (keys.w_pressed || keys.space_pressed)) || (id == 1 && (
        keys.up_pressed || keys.right_control_pressed));
        let mut fire = (id == 0 && input.mouse.left_pressed) || (id == 1 && keys.enter_pressed);
        let mut aim = self.aim;
        let mut stick_aimed = false;
        match pad {
            Some(g) => {
                if g.left_x as i64 > DEADZONE || (g.left_x as i64) < -DEADZONE {
                    direction = g.left_x as i64;
                    facing_left = g.left_x < 0;
                }
                jump = jump || g.jump_pressed;
                fire = fire || g.right_trigger as i64 > TRIGGER_THRESHOLD;
                let ax = g.right_x as i64;
                let ay = g.right_y as i64;
                assert(0 <= ax * ax <= 0x4000_0000 && 0 <= ay * ay <= 0x4000_0000)
                    by (nonlinear_arith)
                    requires
                        -0x8000 <= ax <= 0x7fff,
                        -0x8000 <= ay <= 0x7fff,
                ;
                if ax * ax + ay * ay > DEADZONE * DEADZONE {
                    assert(ax != 0 || ay != 0) by (nonlinear_arith)
                        requires
                            ax * ax + ay * ay > DEADZONE * DEADZONE,
                    ;
                    aim = unit_vector(ax as i128, ay as i128);
                    stick_aimed = true;
                }
            },
            None => {},
        }
        if key_left {
            direction = -UNIT;
            facing_left = true;
        }
        if key_right {
            direction = UNIT;
            facing_left = false;
        }
        if id == 0 && !stick_aimed {
            let mouse = input.mouse.position();
            let center = self.center();
            let dx = mouse.x as i128 - center.x as i128;
            let dy = mouse.y as i128 - center.y as i128;
            if dx != 0 || dy != 0 {
                aim = unit_vector(dx, dy);
            }
        }
        Controls { direction, facing_left, jump, aim, fire }
    }

    /// A jump takes effect only from the floor.
    pub open spec fn jumps(self, c: Controls) -> bool {
        c.jump && self.grounded
    }

    /// The shot is allowed: requested, with the cooldown run out.
    pub open spec fn fires(self, c: Controls, dt: u32) -> bool {
        c.fire && cooled(self.shoot_timer, dt) == 0
    }

    /// The combatant after the controls of one frame of `dt` milliseconds.
    pub open spec fn controlled(self, c: Controls, dt: u32) -> Player {
        Player {
            vel: Vec2 {
                x: (c.direction * MOVE_SPEED) as i64,
                y: if self.jumps(c) {
                    JUMP_VELOCITY
                } else {
                    self.vel.y
                },
            },
            grounded: self.grounded && !c.jump,
            facing_left: c.facing_left,
            aim: c.aim,
            shoot_timer: if self.fires(c, dt) {
                SHOOT_COOLDOWN_MS
            } else {
                cooled(self.shoot_timer, dt)
            },
            ..self
        }
    }

    /// The projectile fired under these controls, if any: from the centre, along the
    /// new aim, tagged with this combatant's `input_id`.
    pub open spec fn shot(self, c: Controls, dt: u32) -> Option<Projectile> {
        if self.fires(c, dt) {
            Some(
                Projectile {
                    pos: self.middle(),
                    vel: Vec2 {
                        x: (c.aim.x * PROJECTILE_SPEED) as i64,
                        y: (c.aim.y * PROJECTILE_SPEED) as i64,
                    },
                    color: Color::Black,
                    active: true,
                    owner_id: self.input_id,
                },
            )
        } else {
            None
        }
    }

    /// Applies one frame's controls: velocity, jump, facing, aim, cooldown and shot.
    pub fn apply_controls(&mut self, c: &Controls, dt: u32) -> (shot: Option<Projectile>)
        requires
            old(self).wf(),
            c.wf(),
        ensures
            *final(self) == old(self).controlled(*c, dt),
            shot == old(self).shot(*c, dt),
            final(self).wf(),
    {
        if self.shoot_timer > 0 {
            self.shoot_timer = if self.shoot_timer > dt { self.shoot_timer - dt } else { 0 };
        }
        self.vel.x = c.direction * MOVE_SPEED;
        if c.jump && self.grounded {
            self.vel.y = JUMP_VELOCITY;
            self.grounded = false;
        }
        self.facing_left = c.facing_left;
        self.aim = c.aim;
        if c.fire && self.shoot_timer == 0 {
            let vel = Vec2 { x: c.aim.x * PROJECTILE_SPEED, y: c.aim.y * PROJECTILE_SPEED };
            let p = Projectile::new(self.center(), vel, self.input_id, Color::Black);
            self.shoot_timer = SHOOT_COOLDOWN_MS;
            Some(p)
        } else {
            None
        }
    }

    /// The combatant after one frame of input.
    pub open spec fn after_input(self, input: FrameInput) -> Player {
        self.controlled(self.controls_of(input), input.dt_ms)
    }

    /// The projectile that one frame of input fires, if any.
    pub open spec fn shot_for(self, input: FrameInput) -> Option<Projectile> {
        self.shot(self.controls_of(input), input.dt_ms)
    }

    /// Reads this combatant's controls and applies them; returns the shot fired.
    pub fn handle_input(&mut self, input: &FrameInput) -> (shot: Option<Projectile>)
        requires
            old(self).wf(),
        ensures
            *final(self) == old(self).after_input(*input),
            shot == old(self).shot_for(*input),
            final(self).wf(),
    {
        let c = self.read_controls(input);
        self.apply_controls(&c, input.dt_ms)
    }
}

/// Firing waits for the cooldown, whichever device asks: while the cooldown (after this
/// frame's tick) is above zero no projectile comes out; once it is zero, any request
/// fires exactly one, and the cooldown starts again.
pub proof fn lemma_fire_needs_cooldown(p: Player, input: FrameInput)
    ensures
        cooled(p.shoot_timer, input.dt_ms) > 0 ==> p.shot_for(input) is None,
        cooled(p.shoot_timer, input.dt_ms) == 0 && p.fire_requested(input) ==> {
            &&& p.shot_for(input) is Some
            &&& p.after_input(input).shoot_timer == SHOOT_COOLDOWN_MS
        },
        !p.fire_requested(input) ==> p.shot_for(input) is None,
{
}

/// A jump is applied only from the floor: in the air a request changes neither the
/// vertical velocity nor `grounded`; on the floor it sets the jump velocity and leaves it.
pub proof fn lemma_jump_needs_ground(p: Player, input: FrameInput)
    ensures
        !p.grounded ==> p.after_input(input).vel.y == p.vel.y && !p.after_input(input).grounded,
        p.grounded && p.jump_requested(input) ==> p.after_input(input).vel.y == JUMP_VELOCITY
            && !p.after_input(input).grounded,
        p.grounded && !p.jump_requested(input) ==> p.after_input(input).vel.y == p.vel.y
            && p.after_input(input).grounded,
{
}

} // verus!
