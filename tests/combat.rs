use duel_arena::game_data::GameData;
use duel_arena::game_scene::GameScene;
use duel_arena::geometry::{Color, Rect, Vec2, SUBPIXELS};
use duel_arena::input::{FrameInput, GamepadState, KeyboardState, MouseState};
use duel_arena::player::{Player, JUMP_VELOCITY, SHOOT_COOLDOWN_MS};
use duel_arena::projectile::Projectile;
use duel_arena::scenes::SceneSwitch;

const PX: i64 = SUBPIXELS;

fn no_keys() -> KeyboardState {
    KeyboardState {
        a_down: false,
        d_down: false,
        w_pressed: false,
        space_pressed: false,
        left_down: false,
        right_down: false,
        up_pressed: false,
        right_control_pressed: false,
        enter_pressed: false,
    }
}

fn idle_pad() -> GamepadState {
    GamepadState {
        available: true,
        left_x: 0,
        right_x: 0,
        right_y: 0,
        right_trigger: 0,
        jump_pressed: false,
    }
}

/// No device asks for anything; the mouse rests on `(mx, my)` pixels.
fn quiet(dt_ms: u32, mx: i32, my: i32) -> FrameInput {
    FrameInput {
        dt_ms,
        gamepads: Vec::new(),
        keys: no_keys(),
        mouse: MouseState { x: mx, y: my, left_pressed: false },
    }
}

fn session() -> GameData {
    GameData::new(2304, 1296, 5)
}

/// A scene whose first combatant stands on the floor at rest, with the mouse
/// exactly on its centre (so the mouse leaves its aim alone).
fn standing_scene(data: &GameData) -> (GameScene, i32, i32) {
    let mut g = GameScene::new(5, data.screen_width, data.screen_height);
    g.players[0].pos = Vec2::new(300 * PX, (data.screen_height as i64 - 5) * PX);
    g.players[0].grounded = true;
    let c = g.players[0].center();
    (g, (c.x / PX) as i32, (c.y / PX) as i32)
}

#[test]
fn firing_from_rest_spawns_one_projectile() {
    let mut data = session();
    let (mut g, mx, my) = standing_scene(&data);
    let mut input = quiet(16, mx, my);
    input.mouse.left_pressed = true;
    let center = g.players[0].center();
    let r = g.handle_input(&input, &mut data);
    assert!(matches!(r, SceneSwitch::Stay));
    assert_eq!(g.projectiles.len(), 1);
    let p = g.projectiles[0];
    assert!(p.active);
    assert_eq!(p.owner_id, 0);
    assert_eq!(p.vel, Vec2::new(800_000, 0));
    assert_eq!(p.pos, center);
    assert_eq!(g.players[0].shoot_timer, 500);
    assert_eq!(g.players[0].aim, Vec2::new(1000, 0));
}

#[test]
fn firing_is_rejected_during_cooldown_from_every_device() {
    let mut data = session();
    let (mut g, mx, my) = standing_scene(&data);
    g.players[0].shoot_timer = 300;
    g.players[1].shoot_timer = 300;
    let mut input = quiet(16, mx, my);
    input.mouse.left_pressed = true;
    input.keys.enter_pressed = true;
    let mut pad = idle_pad();
    pad.right_trigger = 900;
    input.gamepads = vec![pad, pad];
    g.handle_input(&input, &mut data);
    assert_eq!(g.projectiles.len(), 0);
    assert_eq!(g.players[0].shoot_timer, 284);
    assert_eq!(g.players[1].shoot_timer, 284);
}

#[test]
fn firing_is_accepted_once_cooldown_runs_out() {
    let mut data = session();
    let (mut g, mx, my) = standing_scene(&data);
    g.players[1].shoot_timer = 20;
    let mut input = quiet(20, mx, my);
    input.keys.enter_pressed = true;
    g.handle_input(&input, &mut data);
    assert_eq!(g.projectiles.len(), 1);
    assert_eq!(g.projectiles[0].owner_id, 1);
    assert_eq!(g.players[1].shoot_timer, SHOOT_COOLDOWN_MS);
}

#[test]
fn trigger_fires_along_right_stick() {
    let mut data = session();
    let (mut g, mx, my) = standing_scene(&data);
    let mut input = quiet(16, mx, my);
    let mut pad = idle_pad();
    pad.right_x = 0;
    pad.right_y = -800;
    pad.right_trigger = 600;
    input.gamepads = vec![idle_pad(), pad];
    g.handle_input(&input, &mut data);
    assert_eq!(g.players[1].aim, Vec2::new(0, -1000));
    assert_eq!(g.projectiles.len(), 1);
    assert_eq!(g.projectiles[0].vel, Vec2::new(0, -800_000));
    // a trigger at the threshold is not a pull
    let mut g2 = GameScene::new(5, 2304, 1296);
    let mut input2 = quiet(16, 0, 0);
    let mut weak = idle_pad();
    weak.right_trigger = 500;
    input2.gamepads = vec![idle_pad(), weak];
    g2.handle_input(&input2, &mut data);
    assert_eq!(g2.projectiles.len(), 0);
}

#[test]
fn jump_only_from_the_floor() {
    let mut data = session();
    let (mut g, mx, my) = standing_scene(&data);
    let mut input = quiet(16, mx, my);
    input.keys.w_pressed = true;
    input.keys.up_pressed = true;
    g.players[1].vel.y = 1234;
    g.handle_input(&input, &mut data);
    assert_eq!(g.players[0].vel.y, JUMP_VELOCITY);
    assert!(!g.players[0].grounded);
    // combatant 1 was in the air: nothing changes
    assert_eq!(g.players[1].vel.y, 1234);
    assert!(!g.players[1].grounded);
}

#[test]
fn gamepad_jump_button_jumps() {
    let mut data = session();
    let mut g = GameScene::new(5, 2304, 1296);
    g.players[1].grounded = true;
    let mut input = quiet(16, 0, 0);
    let mut pad = idle_pad();
    pad.jump_pressed = true;
    input.gamepads = vec![idle_pad(), pad];
    g.handle_input(&input, &mut data);
    assert_eq!(g.players[1].vel.y, -550_000);
    assert!(!g.players[1].grounded);
}

#[test]
fn horizontal_velocity_follows_input_each_frame() {
    let mut data = session();
    let mut g = GameScene::new(5, 2304, 1296);
    let mut input = quiet(16, 0, 0);
    input.keys.a_down = true;
    input.keys.right_down = true;
    g.handle_input(&input, &mut data);
    assert_eq!(g.players[0].vel.x, -300_000);
    assert!(g.players[0].facing_left);
    assert_eq!(g.players[1].vel.x, 300_000);
    assert!(!g.players[1].facing_left);
    // D wins over A
    input.keys.d_down = true;
    g.handle_input(&input, &mut data);
    assert_eq!(g.players[0].vel.x, 300_000);
    // releasing everything stops at once
    g.handle_input(&quiet(16, 0, 0), &mut data);
    assert_eq!(g.players[0].vel.x, 0);
    assert_eq!(g.players[1].vel.x, 0);
}

#[test]
fn stick_inside_deadzone_is_ignored() {
    let mut data = session();
    let mut g = GameScene::new(5, 2304, 1296);
    let mut input = quiet(16, 0, 0);
    let mut pad = idle_pad();
    pad.left_x = 100;
    pad.right_x = 60;
    pad.right_y = 80;
    input.gamepads = vec![idle_pad(), pad];
    g.handle_input(&input, &mut data);
    assert_eq!(g.players[1].vel.x, 0);
    assert_eq!(g.players[1].aim, Vec2::new(1000, 0));
    pad.left_x = -500;
    input.gamepads = vec![idle_pad(), pad];
    g.handle_input(&input, &mut data);
    assert_eq!(g.players[1].vel.x, -150_000);
    assert!(g.players[1].facing_left);
}

#[test]
fn mouse_aims_only_the_first_combatant() {
    let mut data = session();
    let mut g = GameScene::new(5, 2304, 1296);
    let c0 = g.players[0].center();
    let mx = (c0.x / PX) as i32;
    let my = (c0.y / PX) as i32 - 50;
    g.handle_input(&quiet(16, mx, my), &mut data);
    assert_eq!(g.players[0].aim, Vec2::new(0, -1000));
    assert_eq!(g.players[1].aim, Vec2::new(1000, 0));
}

#[test]
fn projectile_hits_other_combatant() {
    let mut data = session();
    let mut g = GameScene::new(5, 2304, 1296);
    g.players[1].pos = Vec2::new(95 * PX, 95 * PX);
    g.players[1].vel = Vec2::new(300_000, -20_000);
    g.projectiles.push(Projectile::new(Vec2::new(100 * PX, 100 * PX), Vec2::zero(), 0, Color::Black));
    let r = g.update(0, &mut data);
    assert!(matches!(r, SceneSwitch::Stay));
    assert_eq!(g.projectiles.len(), 0);
    assert_eq!(g.players[1].pos.y, 0);
    assert_eq!(g.players[1].pos.x, 95 * PX);
    assert_eq!(g.players[1].vel, Vec2::zero());
}

#[test]
fn projectile_never_hits_its_owner() {
    let mut data = session();
    let mut g = GameScene::new(5, 2304, 1296);
    g.players[1].pos = Vec2::new(95 * PX, 95 * PX);
    g.projectiles.push(Projectile::new(Vec2::new(100 * PX, 100 * PX), Vec2::zero(), 1, Color::Black));
    g.update(0, &mut data);
    assert_eq!(g.projectiles.len(), 1);
    assert!(g.projectiles[0].active);
    assert_eq!(g.players[1].pos, Vec2::new(95 * PX, 95 * PX));
}

#[test]
fn projectile_hits_only_one_combatant() {
    let mut data = session();
    let mut g = GameScene::new(5, 2304, 1296);
    // both combatants overlap the projectile; it belongs to neither
    g.players[0].pos = Vec2::new(95 * PX, 95 * PX);
    g.players[1].pos = Vec2::new(95 * PX, 95 * PX);
    g.projectiles.push(Projectile::new(Vec2::new(100 * PX, 100 * PX), Vec2::zero(), 7, Color::Black));
    g.update(0, &mut data);
    assert_eq!(g.projectiles.len(), 0);
    assert_eq!(g.players[0].pos.y, 0);
    assert_eq!(g.players[1].pos.y, 95 * PX);
}

#[test]
fn projectile_out_of_bounds_is_deactivated_and_removed() {
    let field = Rect::new(0, 0, 1000 * PX, 800 * PX);
    let mut p = Projectile::new(Vec2::new(1000 * PX, 400 * PX), Vec2::new(800_000, 0), 0, Color::Black);
    p.update(125, &field); // 100 px on: exactly at the margin
    assert!(p.active);
    assert_eq!(p.pos, Vec2::new(1100 * PX, 400 * PX));
    p.update(1, &field);
    assert!(!p.active);
    let mut q = Projectile::new(Vec2::new(10 * PX, -99 * PX), Vec2::new(0, -1_000_000), 0, Color::Black);
    q.update(2, &field);
    assert_eq!(q.pos, Vec2::new(10 * PX, -101 * PX));
    assert!(!q.active);

    let mut data = session();
    let mut g = GameScene::new(5, 2304, 1296);
    g.projectiles.push(Projectile::new(Vec2::new(2400 * PX, 500 * PX), Vec2::new(800_000, 0), 0, Color::Black));
    g.projectiles.push(Projectile::new(Vec2::new(1000 * PX, 500 * PX), Vec2::new(800_000, 0), 0, Color::Black));
    g.update(16, &mut data);
    assert_eq!(g.projectiles.len(), 1);
    assert!(g.projectiles.iter().all(|p| p.active));
    assert_eq!(g.projectiles[0].pos, Vec2::new(1000 * PX + 12_800_000, 500 * PX));
}

#[test]
fn inactive_projectile_stays_inactive() {
    let field = Rect::new(0, 0, 1000 * PX, 800 * PX);
    let mut p = Projectile::new(Vec2::new(10 * PX, 10 * PX), Vec2::zero(), 0, Color::Black);
    p.active = false;
    p.update(16, &field);
    assert!(!p.active);
}

#[test]
fn update_leaves_only_active_projectiles() {
    let mut data = session();
    let mut g = GameScene::new(5, 2304, 1296);
    let mut spent = Projectile::new(Vec2::new(500 * PX, 500 * PX), Vec2::zero(), 0, Color::Black);
    spent.active = false;
    g.projectiles.push(spent);
    g.projectiles.push(Projectile::new(Vec2::new(600 * PX, 500 * PX), Vec2::zero(), 0, Color::Black));
    g.projectiles.push(spent);
    g.update(16, &mut data);
    assert_eq!(g.projectiles.len(), 1);
    assert!(g.projectiles.iter().all(|p| p.active));
}

#[test]
fn gravity_and_floor() {
    let mut data = session();
    let mut g = GameScene::new(5, 2304, 1296);
    g.players[0].pos = Vec2::new(300 * PX, 0);
    g.players[0].vel = Vec2::new(300_000, 0);
    g.players[1].pos.y = 1290 * PX;
    g.update(100, &mut data);
    // vel.y = 300 * 100 mpx/s; moved 30 px right and 3 px down
    assert_eq!(g.players[0].vel.y, 30_000);
    assert_eq!(g.players[0].pos, Vec2::new(330 * PX, 3 * PX));
    assert!(!g.players[0].grounded);
    // the second combatant passes the floor line (1291 px) and lands on it
    assert_eq!(g.players[1].pos.y, 1291 * PX);
    assert_eq!(g.players[1].vel.y, 0);
    assert!(g.players[1].grounded);
}

#[test]
fn walk_animation_advances_with_movement() {
    let mut data = session();
    let mut g = GameScene::new(5, 2304, 1296);
    g.players[0].vel.x = 300_000;
    g.update(60, &mut data);
    assert_eq!(g.walk_frame, 0);
    assert_eq!(g.walk_timing_ms, 60);
    g.update(40, &mut data);
    assert_eq!(g.walk_frame, 1);
    assert_eq!(g.walk_timing_ms, 0);
    g.walk_frame = 4;
    g.update(100, &mut data);
    assert_eq!(g.walk_frame, 0);
    let mut still = GameScene::new(5, 2304, 1296);
    still.update(500, &mut data);
    assert_eq!(still.walk_frame, 0);
    assert_eq!(still.walk_timing_ms, 0);
}

#[test]
fn new_match_layout() {
    let g = GameScene::new(5, 2304, 1296);
    assert_eq!(g.players.len(), 2);
    assert_eq!(g.players[0].pos, Vec2::new(300 * PX, 1281 * PX));
    assert_eq!(g.players[1].pos, Vec2::new(900 * PX, 1281 * PX));
    assert_eq!(g.players[0].input_id, 0);
    assert_eq!(g.players[1].input_id, 1);
    assert_eq!(g.players[0].aim, Vec2::new(1000, 0));
    assert!(g.projectiles.is_empty());
    assert_eq!(g.gravity, 300);
    assert_eq!(g.frame_time_ms, 100);
}

#[test]
fn player_geometry() {
    let p = Player::new(1, 10 * PX, 20 * PX, Color::Red);
    assert_eq!(p.rect(), Rect::new(10 * PX, 20 * PX, 30 * PX, 30 * PX));
    assert_eq!(p.center(), Vec2::new(25 * PX, 35 * PX));
    assert_eq!(p.shoot_timer, 0);
    assert!(!p.grounded);
    let far = Player::new(0, i64::MAX, i64::MIN, Color::Blue);
    assert_eq!(far.pos, Vec2::new(duel_arena::geometry::WORLD_LIMIT, -duel_arena::geometry::WORLD_LIMIT));
}

#[test]
fn scoring_adds_one() {
    let mut data = session();
    assert_eq!(data.points, 0);
    data.score();
    data.score();
    assert_eq!(data.points, 2);
    assert!(!data.p1_facing_left);
    assert!(data.p2_facing_left);
}
