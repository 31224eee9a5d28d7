//! The arena: two combatants, the live projectiles, and the per-frame pipeline
//! of input, projectile motion, collisions, pruning and physics.

use vstd::prelude::*;
use crate::draw::{DrawCmd, Sheet};
use crate::game_data::GameData;
use crate::geometry::{
    Color, Rect, Vec2, SUBPIXELS, WORLD_LIMIT, px, saturated, to_i64,
};
use crate::input::FrameInput;
use crate::player::Player;
use crate::scenes::{SceneSwitch, SwitchModel};
use crate::projectile::{PROJECTILE_RADIUS, Projectile, advance, advanced};
use crate::utils::{check_collision_circle_rec, circle_meets_rect};

verus! {

/// The core scene: the combatants, the live projectiles and the run animation.
#[derive(Debug, PartialEq, Eq)]
pub struct GameScene {
    pub players: Vec<Player>,
    /// Downward acceleration, in pixels per second squared (milli-pixels per second,
    /// per millisecond).
    pub gravity: i64,
    /// The frame of the run animation shown.
    pub walk_frame: usize,
    /// Milliseconds of movement since the animation last advanced.
    pub walk_timing_ms: u64,
    /// Milliseconds of movement per animation frame.
    pub frame_time_ms: u32,
    pub projectiles: Vec<Projectile>,
}

/// `GameScene` as a mathematical value.
pub struct GameModel {
    pub players: Seq<Player>,
    pub gravity: i64,
    pub walk_frame: usize,
    pub walk_timing_ms: u64,
    pub frame_time_ms: u32,
    pub projectiles: Seq<Projectile>,
}

impl View for GameScene {
    type V = GameModel;

    open spec fn view(&self) -> GameModel {
        GameModel {
            players: self.players@,
            gravity: self.gravity,
            walk_frame: self.walk_frame,
            walk_timing_ms: self.walk_timing_ms,
            frame_time_ms: self.frame_time_ms,
            projectiles: self.projectiles@,
        }
    }
}

/// The projectile hits the combatant: it is live, it was not fired by that
/// combatant, and its circle meets the combatant's hurtbox.
pub open spec fn hits(p: Projectile, target: Player) -> bool {
    &&& p.active
    &&& p.owner_id != target.input_id
    &&& circle_meets_rect(p.pos, PROJECTILE_RADIUS as int, target.hurtbox())
}

/// `j` is the first combatant that the projectile hits.
pub open spec fn is_first_hit(p: Projectile, players: Seq<Player>, j: int) -> bool {
    &&& 0 <= j < players.len()
    &&& hits(p, players[j])
    &&& forall|k: int| 0 <= k < j ==> !hits(p, #[trigger] players[k])
}

/// One projectile resolved against the combatants: on its first hit it is spent
/// and the combatant struck; it hits no one else.
pub open spec fn resolve_one(p: Projectile, players: Seq<Player>) -> (Projectile, Seq<Player>) {
    if exists|j: int| is_first_hit(p, players, j) {
        let j = choose|j: int| is_first_hit(p, players, j);
        (Projectile { active: false, ..p }, players.update(j, players[j].struck()))
    } else {
        (p, players)
    }
}

/// The projectiles resolved one after another, in order, each against the
/// combatants as the ones before it left them.
pub open spec fn resolve_all(projs: Seq<Projectile>, players: Seq<Player>) -> (
    Seq<Projectile>,
    Seq<Player>,
)
    decreases projs.len(),
{
    if projs.len() == 0 {
        (projs, players)
    } else {
        let (done, after) = resolve_all(projs.drop_last(), players);
        let (p, struck) = resolve_one(projs.last(), after);
        (done.push(p), struck)
    }
}

/// The run animation after the combatants' moves of one frame: each moving
/// combatant adds `dt` to the timer, and a full `frame_time` advances the frame.
pub open spec fn animate(
    frame: int,
    timing: int,
    players: Seq<Player>,
    dt: int,
    frame_time: int,
    frames: int,
) -> (int, int)
    decreases players.len(),
{
    if players.len() == 0 {
        (frame, timing)
    } else {
        let (f, t) = animate(frame, timing, players.drop_last(), dt, frame_time, frames);
        if players.last().vel.x != 0 {
            if t + dt >= frame_time {
                ((f + 1) % frames, 0)
            } else {
                (f, t + dt)
            }
        } else {
            (f, t)
        }
    }
}

/// The projectile is live.
pub open spec fn is_active(p: Projectile) -> bool {
    p.active
}

impl Player {
    /// The combatant after a hit: back at the top of the field, at rest.
    pub open spec fn struck(self) -> Player {
        Player { pos: Vec2 { x: self.pos.x, y: 0 }, vel: Vec2 { x: 0, y: 0 }, ..self }
    }

    /// Sends the combatant back to the top of the field, at rest.
    pub fn respawn(&mut self)
        ensures
            *final(self) == old(self).struck(),
    {
        self.pos.y = 0;
        self.vel = Vec2::zero();
    }

    /// The combatant after `dt` milliseconds of gravity and motion, stopped by the
    /// floor line: below it, it stands on the floor at rest vertically.
    pub open spec fn fallen(self, gravity: int, dt: int, floor: int) -> Player {
        let vy = saturated(self.vel.y + gravity * dt);
        let x = advanced(self.pos.x as int, self.vel.x as int, dt);
        let y = advanced(self.pos.y as int, vy, dt);
        if y > floor {
            Player {
                pos: Vec2 { x: x as i64, y: floor as i64 },
                vel: Vec2 { x: self.vel.x, y: 0 },
                grounded: true,
                ..self
            }
        } else {
            Player {
                pos: Vec2 { x: x as i64, y: y as i64 },
                vel: Vec2 { x: self.vel.x, y: vy as i64 },
                ..self
            }
        }
    }

    /// Applies gravity and motion for `dt` milliseconds, then the floor.
    pub fn fall(&mut self, gravity: i64, dt: u32, floor: i64)
        requires
            -WORLD_LIMIT <= floor <= WORLD_LIMIT,
        ensures
            *final(self) == old(self).fallen(gravity as int, dt as int, floor as int),
            old(self).wf() ==> final(self).wf(),
    {
        assert(-0x8000_0000_0000_0000_0000_0000 <= gravity * dt <= 0x8000_0000_0000_0000_0000_0000)
            by (nonlinear_arith)
            requires
                i64::MIN <= gravity <= i64::MAX,
                0 <= dt <= u32::MAX,
        ;
        let vy = to_i64(self.vel.y as i128 + gravity as i128 * dt as i128);
        let x = advance(self.pos.x, self.vel.x, dt);
        let y = advance(self.pos.y, vy, dt);
        if y > floor {
            self.pos = Vec2 { x, y: floor };
            self.vel.y = 0;
            self.grounded = true;
        } else {
            self.pos = Vec2 { x, y };
            self.vel.y = vy;
        }
    }
}

/// There is at most one first hit.
proof fn lemma_first_hit_unique(p: Projectile, players: Seq<Player>, a: int, b: int)
    requires
        is_first_hit(p, players, a),
        is_first_hit(p, players, b),
    ensures
        a == b,
{
    if a < b {
        assert(!hits(p, players[a]));
    } else if b < a {
        assert(!hits(p, players[b]));
    }
}

/// Resolves one projectile against the combatants; returns it, spent if it hit.
fn strike_first(p: Projectile, players: &mut Vec<Player>) -> (r: Projectile)
    ensures
        (r, final(players)@) == resolve_one(p, old(players)@),
        final(players)@.len() == old(players)@.len(),
        (forall|k: int| 0 <= k < old(players)@.len() ==> (#[trigger] old(players)@[k]).wf())
            ==> (forall|k: int| 0 <= k < final(players)@.len() ==> (#[trigger] final(players)@[k]).wf()),
{
    if !p.active {
        assert(!exists|j: int| is_first_hit(p, old(players)@, j));
        return p;
    }
    let mut j: usize = 0;
    while j < players.len()
        invariant
            0 <= j <= players@.len(),
            players@ == old(players)@,
            p.active,
            forall|k: int| 0 <= k < j ==> !hits(p, #[trigger] players@[k]),
        decreases players@.len() - j,
    {
        let target = players[j];
        if p.owner_id != target.input_id && check_collision_circle_rec(
            p.pos,
            PROJECTILE_RADIUS,
            target.rect(),
        ) {
            let ghost before = players@;
            assert(is_first_hit(p, before, j as int));
            proof {
                let c = choose|c: int| is_first_hit(p, before, c);
                lemma_first_hit_unique(p, before, c, j as int);
            }
            let mut struck = target;
            struck.respawn();
            players[j] = struck;
            assert(forall|k: int| 0 <= k < before.len() && k != j ==> players@[k] == before[k]);
            return Projectile { active: false, ..p };
        }
        j += 1;
    }
    assert(!exists|j: int| is_first_hit(p, old(players)@, j));
    p
}

impl GameScene {
    /// The bounds that the scene's arithmetic relies on, and the two combatants.
    pub open spec fn wf(&self) -> bool {
        self@.wf()
    }

    /// Moves every projectile; the ones past the field's margin stop being active.
    fn move_projectiles(&mut self, dt: u32, field: &Rect)
        ensures
            final(self)@ == (GameModel {
                projectiles: old(self)@.projectiles.map_values(|p: Projectile| p.moved(dt, *field)),
                ..old(self)@
            }),
    {
        let mut i: usize = 0;
        while i < self.projectiles.len()
            invariant
                0 <= i <= self.projectiles@.len(),
                self.projectiles@.len() == old(self).projectiles@.len(),
                forall|k: int|
                    0 <= k < i ==> #[trigger] self.projectiles@[k] == old(
                        self,
                    ).projectiles@[k].moved(dt, *field),
                forall|k: int|
                    i <= k < self.projectiles@.len() ==> #[trigger] self.projectiles@[k] == old(
                        self,
                    ).projectiles@[k],
                self.players == old(self).players,
                self.gravity == old(self).gravity,
                self.walk_frame == old(self).walk_frame,
                self.walk_timing_ms == old(self).walk_timing_ms,
                self.frame_time_ms == old(self).frame_time_ms,
            decreases self.projectiles@.len() - i,
        {
            let mut p = self.projectiles[i];
            p.update(dt, field);
            self.projectiles[i] = p;
            i += 1;
        }
        assert(self.projectiles@ =~= old(self)@.projectiles.map_values(
            |p: Projectile| p.moved(dt, *field),
        ));
    }

    /// Resolves every projectile against the combatants, in order.
    fn resolve_hits(&mut self)
        ensures
            (final(self)@.projectiles, final(self)@.players) == resolve_all(
                old(self)@.projectiles,
                old(self)@.players,
            ),
            final(self)@.gravity == old(self)@.gravity,
            final(self)@.walk_frame == old(self)@.walk_frame,
            final(self)@.walk_timing_ms == old(self)@.walk_timing_ms,
            final(self)@.frame_time_ms == old(self)@.frame_time_ms,
            old(self)@.wf() ==> final(self)@.wf(),
    {
        let ghost projs = self.projectiles@;
        let mut done: Vec<Projectile> = Vec::new();
        let mut i: usize = 0;
        assert(projs.subrange(0, 0) =~= Seq::<Projectile>::empty());
        while i < self.projectiles.len()
            invariant
                0 <= i <= projs.len(),
                self.projectiles@ == projs,
                (done@, self.players@) == resolve_all(projs.subrange(0, i as int), old(self)@.players),
                self.players@.len() == old(self)@.players.len(),
                old(self)@.wf() ==> forall|k: int|
                    0 <= k < self.players@.len() ==> (#[trigger] self.players@[k]).wf(),
                self.gravity == old(self).gravity,
                self.walk_frame == old(self).walk_frame,
                self.walk_timing_ms == old(self).walk_timing_ms,
                self.frame_time_ms == old(self).frame_time_ms,
            decreases projs.len() - i,
        {
            let p = self.projectiles[i];
            let r = strike_first(p, &mut self.players);
            done.push(r);
            assert(projs.subrange(0, i + 1).drop_last() =~= projs.subrange(0, i as int));
            i += 1;
        }
        assert(projs.subrange(0, projs.len() as int) =~= projs);
        self.projectiles = done;
    }
}

/// The live projectiles of `v`, in order.
fn keep_active(v: &Vec<Projectile>) -> (r: Vec<Projectile>)
    ensures
        r@ == v@.filter(|p: Projectile| is_active(p)),
{
    let mut out: Vec<Projectile> = Vec::new();
    let mut i: usize = 0;
    assert(v@.subrange(0, 0) =~= Seq::<Projectile>::empty());
    proof {
        reveal(Seq::filter);
    }
    while i < v.len()
        invariant
            0 <= i <= v@.len(),
            out@ == v@.subrange(0, i as int).filter(|p: Projectile| is_active(p)),
        decreases v@.len() - i,
    {
        let p = v[i];
        proof {
            assert(v@.subrange(0, i + 1) =~= v@.subrange(0, i as int).push(p));
            v@.subrange(0, i as int).lemma_filter_push(p, |p: Projectile| is_active(p));
        }
        if p.active {
            out.push(p);
        }
        i += 1;
    }
    assert(v@.subrange(0, v@.len() as int) =~= v@);
    out
}

impl GameScene {
    /// Advances the run animation for the combatants that move.
    fn animate_walk(&mut self, dt: u32, frames: usize)
        requires
            frames > 0,
            old(self).walk_timing_ms < old(self).frame_time_ms,
        ensures
            (final(self).walk_frame as int, final(self).walk_timing_ms as int) == animate(
                old(self).walk_frame as int,
                old(self).walk_timing_ms as int,
                old(self).players@,
                dt as int,
                old(self).frame_time_ms as int,
                frames as int,
            ),
            final(self).walk_timing_ms < final(self).frame_time_ms,
            final(self).walk_frame < frames || final(self).walk_frame == old(self).walk_frame,
            final(self).players == old(self).players,
            final(self).projectiles == old(self).projectiles,
            final(self).gravity == old(self).gravity,
            final(self).frame_time_ms == old(self).frame_time_ms,
    {
        let mut j: usize = 0;
        assert(self.players@.subrange(0, 0) =~= Seq::<Player>::empty());
        while j < self.players.len()
            invariant
                0 <= j <= self.players@.len(),
                frames > 0,
                self.walk_timing_ms < self.frame_time_ms,
                self.players == old(self).players,
                self.projectiles == old(self).projectiles,
                self.gravity == old(self).gravity,
                self.frame_time_ms == old(self).frame_time_ms,
                self.walk_frame < frames || self.walk_frame == old(self).walk_frame,
                (self.walk_frame as int, self.walk_timing_ms as int) == animate(
                    old(self).walk_frame as int,
                    old(self).walk_timing_ms as int,
                    self.players@.subrange(0, j as int),
                    dt as int,
                    self.frame_time_ms as int,
                    frames as int,
                ),
            decreases self.players@.len() - j,
        {
            assert(self.players@.subrange(0, j + 1).drop_last() =~= self.players@.subrange(
                0,
                j as int,
            ));
            if self.players[j].vel.x != 0 {
                self.walk_timing_ms = self.walk_timing_ms + dt as u64;
                if self.walk_timing_ms >= self.frame_time_ms as u64 {
                    self.walk_timing_ms = 0;
                    proof {
                        vstd::arithmetic::div_mod::lemma_add_mod_noop_right(
                            1,
                            self.walk_frame as int,
                            frames as int,
                        );
                    }
                    self.walk_frame = (1 + self.walk_frame % frames) % frames;
                }
            }
            j += 1;
        }
        assert(self.players@.subrange(0, self.players@.len() as int) =~= self.players@);
    }

    /// Gravity, motion and the floor, for every combatant.
    fn apply_physics(&mut self, dt: u32, floor: i64)
        requires
            -WORLD_LIMIT <= floor <= WORLD_LIMIT,
        ensures
            old(self)@.wf() ==> final(self)@.wf(),
            final(self)@ == (GameModel {
                players: old(self)@.players.map_values(
                    |pl: Player| pl.fallen(old(self).gravity as int, dt as int, floor as int),
                ),
                ..old(self)@
            }),
    {
        let mut j: usize = 0;
        while j < self.players.len()
            invariant
                0 <= j <= self.players@.len(),
                -WORLD_LIMIT <= floor <= WORLD_LIMIT,
                self.players@.len() == old(self).players@.len(),
                forall|k: int|
                    0 <= k < j ==> #[trigger] self.players@[k] == old(self).players@[k].fallen(
                        old(self).gravity as int,
                        dt as int,
                        floor as int,
                    ),
                forall|k: int|
                    j <= k < self.players@.len() ==> #[trigger] self.players@[k] == old(
                        self,
                    ).players@[k],
                self.projectiles == old(self).projectiles,
                self.gravity == old(self).gravity,
                self.walk_frame == old(self).walk_frame,
                self.walk_timing_ms == old(self).walk_timing_ms,
                self.frame_time_ms == old(self).frame_time_ms,
            decreases self.players@.len() - j,
        {
            let mut pl = self.players[j];
            assert(old(self)@.wf() ==> pl.wf());
            pl.fall(self.gravity, dt, floor);
            self.players[j] = pl;
            j += 1;
        }
        assert(self.players@ =~= old(self)@.players.map_values(
            |pl: Player| pl.fallen(old(self).gravity as int, dt as int, floor as int),
        ));
    }
}

impl GameModel {
    /// Two combatants, each well formed, and a running animation timer.
    pub open spec fn wf(self) -> bool {
        &&& self.players.len() == 2
        &&& forall|i: int| 0 <= i < self.players.len() ==> (#[trigger] self.players[i]).wf()
        &&& self.walk_timing_ms < self.frame_time_ms
    }

    /// The scene after one `update` of `dt` milliseconds: projectiles move, then hit,
    /// the animation advances, spent projectiles go, and the combatants fall.
    pub open spec fn stepped(self, dt: u32, data: GameData) -> GameModel {
        let moved = self.projectiles.map_values(|p: Projectile| p.moved(dt, data.field()));
        let (resolved, struck) = resolve_all(moved, self.players);
        let (frame, timing) = animate(
            self.walk_frame as int,
            self.walk_timing_ms as int,
            struck,
            dt as int,
            self.frame_time_ms as int,
            data.run_frames as int,
        );
        GameModel {
            players: struck.map_values(
                |pl: Player| pl.fallen(self.gravity as int, dt as int, data.floor() as int),
            ),
            projectiles: resolved.filter(|p: Projectile| is_active(p)),
            walk_frame: frame as usize,
            walk_timing_ms: timing as u64,
            ..self
        }
    }
}

/// The projectiles fired by the combatants in one frame of input, in their order.
pub open spec fn shots(players: Seq<Player>, input: FrameInput) -> Seq<Projectile>
    decreases players.len(),
{
    if players.len() == 0 {
        Seq::empty()
    } else {
        let earlier = shots(players.drop_last(), input);
        match players.last().shot_for(input) {
            Some(s) => earlier.push(s),
            None => earlier,
        }
    }
}

/// Where a combatant of a new match stands, in micro-pixels.
pub open spec fn start_x(id: int) -> int {
    if id == 0 {
        300 * SUBPIXELS
    } else {
        900 * SUBPIXELS
    }
}

impl GameModel {
    /// The scene after one frame of input: each combatant handles its controls, and
    /// the shots fired join the live projectiles after all of them.
    pub open spec fn after_input(self, input: FrameInput) -> GameModel {
        GameModel {
            players: self.players.map_values(|pl: Player| pl.after_input(input)),
            projectiles: self.projectiles + shots(self.players, input),
            ..self
        }
    }

    /// A new match on a screen `height` pixels high: two combatants standing near
    /// the bottom, no projectiles, the animation at its start.
    pub open spec fn initial(height: i32) -> GameModel {
        let y = (height - 15) * SUBPIXELS;
        GameModel {
            players: seq![
                Player::spawned(0, start_x(0), y, Color::Blue),
                Player::spawned(1, start_x(1), y, Color::Red),
            ],
            gravity: 300,
            walk_frame: 0,
            walk_timing_ms: 0,
            frame_time_ms: 100,
            projectiles: Seq::empty(),
        }
    }
}

/// A new match is well formed.
pub proof fn lemma_initial_wf(height: i32)
    ensures
        GameModel::initial(height).wf(),
{
    let m = GameModel::initial(height);
    assert(m.players[0].wf() && m.players[1].wf());
}

impl GameScene {
    /// A new match for a `width` by `height` pixel screen. (`n` is not used.)
    pub fn new(n: usize, width: i32, height: i32) -> (r: GameScene)
        ensures
            r@ == GameModel::initial(height),
            r.wf(),
    {
        let y: i64 = (height as i64 - 15) * SUBPIXELS;
        let players = vec![
            Player::new(0, 300 * SUBPIXELS, y, Color::Blue),
            Player::new(1, 900 * SUBPIXELS, y, Color::Red),
        ];
        let r = GameScene {
            players,
            gravity: 300,
            walk_frame: 0,
            walk_timing_ms: 0,
            frame_time_ms: 100,
            projectiles: Vec::new(),
        };
        assert(r@.players =~= GameModel::initial(height).players);
        assert(r@.projectiles =~= GameModel::initial(height).projectiles);
        r
    }

    /// Called when the scene becomes active: the animation starts over.
    pub fn on_enter(&mut self, data: &mut GameData)
        ensures
            final(self)@ == (GameModel { walk_frame: 0, walk_timing_ms: 0, ..old(self)@ }),
            *final(data) == *old(data),
            old(self).wf() ==> final(self).wf(),
    {
        self.walk_frame = 0;
        self.walk_timing_ms = 0;
    }

    /// Called when the scene leaves the stack: nothing to release.
    pub fn on_exit(&mut self, data: &mut GameData)
        ensures
            final(self)@ == old(self)@,
            *final(data) == *old(data),
    {
    }

    /// Handles one frame of input for both combatants; new shots join the live set
    /// once every combatant has been handled.
    pub fn handle_input(&mut self, input: &FrameInput, data: &mut GameData) -> (r: SceneSwitch)
        requires
            old(self).wf(),
        ensures
            final(self)@ == old(self)@.after_input(*input),
            final(self).wf(),
            *final(data) == *old(data),
            r@ == SwitchModel::Stay,
    {
        let mut new_shots: Vec<Projectile> = Vec::new();
        let mut j: usize = 0;
        assert(self.players@.subrange(0, 0) =~= Seq::<Player>::empty());
        while j < self.players.len()
            invariant
                0 <= j <= self.players@.len(),
                self.players@.len() == old(self).players@.len(),
                old(self)@.wf(),
                forall|k: int|
                    0 <= k < j ==> #[trigger] self.players@[k] == old(self).players@[k].after_input(
                        *input,
                    ),
                forall|k: int|
                    j <= k < self.players@.len() ==> #[trigger] self.players@[k] == old(
                        self,
                    ).players@[k],
                new_shots@ == shots(old(self).players@.subrange(0, j as int), *input),
                forall|k: int| 0 <= k < self.players@.len() ==> (#[trigger] self.players@[k]).wf(),
                self.projectiles == old(self).projectiles,
                self.gravity == old(self).gravity,
                self.walk_frame == old(self).walk_frame,
                self.walk_timing_ms == old(self).walk_timing_ms,
                self.frame_time_ms == old(self).frame_time_ms,
            decreases self.players@.len() - j,
        {
            let mut pl = self.players[j];
            assert(pl.wf());
            let shot = pl.handle_input(input);
            self.players[j] = pl;
            assert(old(self).players@.subrange(0, j + 1).drop_last() =~= old(
                self,
            ).players@.subrange(0, j as int));
            match shot {
                Some(s) => new_shots.push(s),
                None => {},
            }
            j += 1;
        }
        assert(old(self).players@.subrange(0, old(self).players@.len() as int) =~= old(
            self,
        ).players@);
        assert(self.players@ =~= old(self)@.players.map_values(
            |pl: Player| pl.after_input(*input),
        ));
        self.projectiles.append(&mut new_shots);
        SceneSwitch::Stay
    }

    /// Advances the match by `dt` milliseconds: projectiles move and hit, spent ones go,
    /// the run animation advances, and the combatants fall to the floor.
    pub fn update(&mut self, dt: u32, data: &mut GameData) -> (r: SceneSwitch)
        requires
            old(self).wf(),
            old(data).run_frames > 0,
        ensures
            final(self)@ == old(self)@.stepped(dt, *old(data)),
            final(self).wf(),
            *final(data) == *old(data),
            r@ == SwitchModel::Stay,
    {
        let field = data.field_rect();
        self.move_projectiles(dt, &field);
        self.resolve_hits();
        self.animate_walk(dt, data.run_frames);
        self.projectiles = keep_active(&self.projectiles);
        let floor = data.floor_line();
        self.apply_physics(dt, floor);
        SceneSwitch::Stay
    }
}

/// After `update`, every projectile in the live set is active: a projectile spent in a
/// step never survives that step.
pub proof fn lemma_update_keeps_only_active(s: GameModel, dt: u32, data: GameData)
    ensures
        forall|i: int|
            0 <= i < s.stepped(dt, data).projectiles.len() ==> (#[trigger] s.stepped(
                dt,
                data,
            ).projectiles[i]).active,
{
    let moved = s.projectiles.map_values(|p: Projectile| p.moved(dt, data.field()));
    let resolved = resolve_all(moved, s.players).0;
    assert forall|i: int| 0 <= i < s.stepped(dt, data).projectiles.len() implies (
    #[trigger] s.stepped(dt, data).projectiles[i]).active by {
        resolved.lemma_filter_pred(|p: Projectile| is_active(p), i);
    }
}

/// A projectile never hits the combatant that fired it: whatever the positions, a
/// combatant whose `input_id` is the projectile's `owner_id` comes out of the
/// projectile's collision check unchanged.
pub proof fn lemma_no_self_hit(p: Projectile, players: Seq<Player>, j: int)
    requires
        0 <= j < players.len(),
        players[j].input_id == p.owner_id,
    ensures
        !hits(p, players[j]),
        resolve_one(p, players).1.len() == players.len(),
        resolve_one(p, players).1[j] == players[j],
{
    if exists|c: int| is_first_hit(p, players, c) {
        let c = choose|c: int| is_first_hit(p, players, c);
        assert(c != j);
    }
}

/// The collision pass changes nothing of a combatant that only its own projectiles
/// are in flight around.
pub proof fn lemma_own_fire_is_harmless(projs: Seq<Projectile>, players: Seq<Player>, j: int)
    requires
        0 <= j < players.len(),
        forall|i: int| 0 <= i < projs.len() ==> (#[trigger] projs[i]).owner_id == players[j].input_id,
    ensures
        resolve_all(projs, players).1.len() == players.len(),
        resolve_all(projs, players).1[j] == players[j],
    decreases projs.len(),
{
    if projs.len() > 0 {
        let rest = projs.drop_last();
        assert forall|i: int| 0 <= i < rest.len() implies (#[trigger] rest[i]).owner_id
            == players[j].input_id by {
            assert(rest[i] == projs[i]);
        }
        lemma_own_fire_is_harmless(rest, players, j);
        let after = resolve_all(rest, players).1;
        lemma_no_self_hit(projs.last(), after, j);
    }
}

/// Length of the aim indicator per thousandth of aim, in micro-pixels (40 pixels for
/// a unit aim).
pub const AIM_REACH: i64 = 40_000;

/// The background, stretched over the whole field.
pub open spec fn background_picture(data: GameData) -> DrawCmd {
    DrawCmd::Sprite {
        sheet: Sheet::Background,
        frame: 0,
        source: Rect { x: 0, y: 0, width: px(576), height: px(324) },
        dest: data.field(),
        origin: Vec2 { x: 0, y: 0 },
        tint: Color::White,
    }
}

/// A combatant's run sprite, mirrored when it faces left.
pub open spec fn runner_picture(pl: Player, sheet: Sheet, frame: usize, height: int) -> DrawCmd {
    DrawCmd::Sprite {
        sheet,
        frame,
        source: Rect {
            x: 0,
            y: 0,
            width: if pl.facing_left {
                px(-419)
            } else {
                px(419)
            },
            height: px(height),
        },
        dest: Rect { x: pl.pos.x, y: pl.pos.y, width: px(128), height: px(128) },
        origin: Vec2 { x: px(64), y: px(120) },
        tint: Color::White,
    }
}

/// Obstacle tile `k`, with its left edge `x` pixels from the left.
pub open spec fn obstacle_picture(k: usize, x: int) -> DrawCmd {
    DrawCmd::Sprite {
        sheet: Sheet::Obstacle,
        frame: k,
        source: Rect { x: 0, y: 0, width: px(64), height: px(64) },
        dest: Rect {
            x: px(x),
            y: px(800),
            width: px(128),
            height: px(128),
        },
        origin: Vec2 { x: 0, y: 0 },
        tint: Color::White,
    }
}

/// A line from a combatant's centre along its aim.
pub open spec fn aim_picture(pl: Player) -> DrawCmd {
    DrawCmd::Line {
        from: pl.middle(),
        to: Vec2 {
            x: (pl.middle().x + pl.aim.x * AIM_REACH) as i64,
            y: (pl.middle().y + pl.aim.y * AIM_REACH) as i64,
        },
        color: pl.color,
    }
}

/// The score, near the bottom-left corner.
pub open spec fn score_picture(data: GameData) -> DrawCmd {
    DrawCmd::Number {
        label: "Score: ",
        value: data.points,
        at: Vec2 { x: px(10), y: px(data.screen_height - 25) },
        size: px(20),
        color: Color::Black,
    }
}

impl GameModel {
    /// The frame as painted: background, both combatants, the obstacle tiles, the aim
    /// indicators, every live projectile, and the score.
    pub open spec fn picture(self, data: GameData) -> Seq<DrawCmd> {
        seq![
            DrawCmd::Clear { color: Color::White },
            background_picture(data),
            runner_picture(self.players[0], Sheet::Player1Run, self.walk_frame, 380),
            runner_picture(self.players[1], Sheet::Player2Run, self.walk_frame, 400),
            obstacle_picture(0, 500),
            obstacle_picture(1, 628),
            obstacle_picture(2, 756),
            aim_picture(self.players[0]),
            aim_picture(self.players[1]),
        ] + self.projectiles.map_values(|p: Projectile| p.picture()) + seq![score_picture(data)]
    }
}

/// A combatant's run sprite.
fn runner(pl: &Player, sheet: Sheet, frame: usize, height: i64) -> (r: DrawCmd)
    requires
        0 <= height <= 1000,
    ensures
        r == runner_picture(*pl, sheet, frame, height as int),
{
    let width: i64 = if pl.facing_left { -419 * SUBPIXELS } else { 419 * SUBPIXELS };
    DrawCmd::Sprite {
        sheet,
        frame,
        source: Rect { x: 0, y: 0, width, height: height * SUBPIXELS },
        dest: Rect { x: pl.pos.x, y: pl.pos.y, width: 128 * SUBPIXELS, height: 128 * SUBPIXELS },
        origin: Vec2 { x: 64 * SUBPIXELS, y: 120 * SUBPIXELS },
        tint: Color::White,
    }
}

/// Obstacle tile `k`.
fn obstacle(k: usize, x: i64) -> (r: DrawCmd)
    requires
        0 <= x <= 10_000,
    ensures
        r == obstacle_picture(k, x as int),
{
    DrawCmd::Sprite {
        sheet: Sheet::Obstacle,
        frame: k,
        source: Rect { x: 0, y: 0, width: 64 * SUBPIXELS, height: 64 * SUBPIXELS },
        dest: Rect {
            x: x * SUBPIXELS,
            y: 800 * SUBPIXELS,
            width: 128 * SUBPIXELS,
            height: 128 * SUBPIXELS,
        },
        origin: Vec2 { x: 0, y: 0 },
        tint: Color::White,
    }
}

/// A combatant's aim indicator.
fn aim_line(pl: &Player) -> (r: DrawCmd)
    requires
        pl.wf(),
    ensures
        r == aim_picture(*pl),
{
    let from = pl.center();
    DrawCmd::Line {
        from,
        to: Vec2 { x: from.x + pl.aim.x * AIM_REACH, y: from.y + pl.aim.y * AIM_REACH },
        color: pl.color,
    }
}

impl GameScene {
    /// The frame's draw commands. Drawing reads the scene and changes nothing.
    pub fn draw(&self, data: &GameData) -> (r: Vec<DrawCmd>)
        requires
            self.wf(),
        ensures
            r@ == self@.picture(*data),
    {
        let mut out: Vec<DrawCmd> = Vec::new();
        out.push(DrawCmd::Clear { color: Color::White });
        out.push(
            DrawCmd::Sprite {
                sheet: Sheet::Background,
                frame: 0,
                source: Rect { x: 0, y: 0, width: 576 * SUBPIXELS, height: 324 * SUBPIXELS },
                dest: data.field_rect(),
                origin: Vec2 { x: 0, y: 0 },
                tint: Color::White,
            },
        );
        out.push(runner(&self.players[0], Sheet::Player1Run, self.walk_frame, 380));
        out.push(runner(&self.players[1], Sheet::Player2Run, self.walk_frame, 400));
        out.push(obstacle(0, 500));
        out.push(obstacle(1, 628));
        out.push(obstacle(2, 756));
        assert(self.players@[0].wf() && self.players@[1].wf());
        out.push(aim_line(&self.players[0]));
        out.push(aim_line(&self.players[1]));
        let ghost head = out@;
        assert(head =~= seq![
            DrawCmd::Clear { color: Color::White },
            background_picture(*data),
            runner_picture(self@.players[0], Sheet::Player1Run, self.walk_frame, 380),
            runner_picture(self@.players[1], Sheet::Player2Run, self.walk_frame, 400),
            obstacle_picture(0, 500),
            obstacle_picture(1, 628),
            obstacle_picture(2, 756),
            aim_picture(self@.players[0]),
            aim_picture(self@.players[1]),
        ]);
        let mut i: usize = 0;
        while i < self.projectiles.len()
            invariant
                0 <= i <= self.projectiles@.len(),
                out@ == head + self.projectiles@.subrange(0, i as int).map_values(
                    |p: Projectile| p.picture(),
                ),
            decreases self.projectiles@.len() - i,
        {
            out.push(self.projectiles[i].draw());
            assert(self.projectiles@.subrange(0, i + 1).map_values(|p: Projectile| p.picture())
                =~= self.projectiles@.subrange(0, i as int).map_values(|p: Projectile| p.picture()).push(
                self.projectiles@[i as int].picture(),
            ));
            i += 1;
        }
        assert(self.projectiles@.subrange(0, self.projectiles@.len() as int) =~= self.projectiles@);
        out.push(
            DrawCmd::Number {
                label: "Score: ",
                value: data.points,
                at: Vec2 { x: 10 * SUBPIXELS, y: (data.screen_height as i64 - 25) * SUBPIXELS },
                size: 20 * SUBPIXELS,
                color: Color::Black,
            },
        );
        assert(out@ =~= self@.picture(*data));
        out
    }
}

} // verus!
