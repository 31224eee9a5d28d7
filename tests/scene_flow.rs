use duel_arena::draw::{DrawCmd, Sheet};
use duel_arena::game_data::GameData;
use duel_arena::game_scene::GameScene;
use duel_arena::geometry::{Color, Rect, Vec2, SUBPIXELS};
use duel_arena::input::{FrameInput, KeyboardState, MouseState};
use duel_arena::menu_scene::{MenuScene, WinScene};
use duel_arena::projectile::Projectile;
use duel_arena::scenes::{Scene, SceneStack, SceneSwitch};

const PX: i64 = SUBPIXELS;

fn click_at(x: i32, y: i32, pressed: bool) -> FrameInput {
    FrameInput {
        dt_ms: 16,
        gamepads: Vec::new(),
        keys: KeyboardState {
            a_down: false,
            d_down: false,
            w_pressed: false,
            space_pressed: false,
            left_down: false,
            right_down: false,
            up_pressed: false,
            right_control_pressed: false,
            enter_pressed: false,
        },
        mouse: MouseState { x, y, left_pressed: pressed },
    }
}

#[test]
fn menu_click_inside_starts_a_match() {
    let mut data = GameData::new(2304, 1296, 5);
    let mut menu = MenuScene;
    match menu.handle_input(&click_at(250, 300, true), &mut data) {
        SceneSwitch::Push(Scene::Game(g)) => {
            assert_eq!(g.players.len(), 2);
            assert_eq!(g.players[0].pos, Vec2::new(300 * PX, 1281 * PX));
        }
        _ => panic!("expected a new match to be pushed"),
    }
    // the border counts as inside
    assert!(matches!(menu.handle_input(&click_at(500, 350, true), &mut data), SceneSwitch::Push(_)));
}

#[test]
fn menu_click_outside_does_nothing() {
    let mut data = GameData::new(2304, 1296, 5);
    let mut menu = MenuScene;
    assert!(matches!(menu.handle_input(&click_at(100, 100, true), &mut data), SceneSwitch::Stay));
    assert!(matches!(menu.handle_input(&click_at(501, 300, true), &mut data), SceneSwitch::Stay));
    // hovering without a press does nothing either
    assert!(matches!(menu.handle_input(&click_at(250, 300, false), &mut data), SceneSwitch::Stay));
    assert!(matches!(menu.update(16, &mut data), SceneSwitch::Stay));
}

#[test]
fn win_click_inside_quits() {
    let mut data = GameData::new(2304, 1296, 5);
    let mut win = WinScene;
    assert!(matches!(win.handle_input(&click_at(300, 250, true), &mut data), SceneSwitch::Quit));
    assert!(matches!(win.handle_input(&click_at(10, 10, true), &mut data), SceneSwitch::Stay));
}

#[test]
fn win_screen_shows_final_score() {
    let mut data = GameData::new(2304, 1296, 5);
    data.score();
    let cmds = WinScene.draw(&data);
    assert_eq!(cmds.len(), 5);
    assert_eq!(cmds[1], DrawCmd::Rectangle { rect: Rect::new(200 * PX, 200 * PX, 300 * PX, 150 * PX), color: Color::Blue });
    assert_eq!(
        cmds[3],
        DrawCmd::Number { label: "Final score: ", value: 1, at: Vec2::new(210 * PX, 225 * PX), size: 20 * PX, color: Color::Black }
    );
}

#[test]
fn menu_draws_red_button() {
    let data = GameData::new(2304, 1296, 5);
    let cmds = MenuScene.draw(&data);
    assert_eq!(cmds.len(), 3);
    assert_eq!(cmds[0], DrawCmd::Clear { color: Color::White });
    assert_eq!(cmds[2], DrawCmd::Text { text: "Click here", at: Vec2::new(210 * PX, 205 * PX), size: 20 * PX, color: Color::Black });
}

#[test]
fn drawing_twice_changes_nothing() {
    let mut data = GameData::new(2304, 1296, 5);
    let mut g = GameScene::new(5, 2304, 1296);
    g.projectiles.push(Projectile::new(Vec2::new(50 * PX, 60 * PX), Vec2::new(1, 2), 0, Color::Black));
    g.players[1].facing_left = true;
    g.update(16, &mut data);
    let players = g.players.clone();
    let projectiles = g.projectiles.clone();
    let first = g.draw(&data);
    let second = g.draw(&data);
    let third = g.draw(&data);
    assert_eq!(first, second);
    assert_eq!(second, third);
    assert_eq!(g.players, players);
    assert_eq!(g.projectiles, projectiles);
    assert_eq!(data, GameData::new(2304, 1296, 5));
}

#[test]
fn match_picture_layout() {
    let data = GameData::new(2304, 1296, 5);
    let mut g = GameScene::new(5, 2304, 1296);
    g.players[1].facing_left = true;
    g.projectiles.push(Projectile::new(Vec2::new(50 * PX, 60 * PX), Vec2::zero(), 0, Color::Black));
    let cmds = g.draw(&data);
    assert_eq!(cmds.len(), 11);
    assert_eq!(cmds[0], DrawCmd::Clear { color: Color::White });
    match cmds[1] {
        DrawCmd::Sprite { sheet, dest, .. } => {
            assert_eq!(sheet, Sheet::Background);
            assert_eq!(dest, Rect::new(0, 0, 2304 * PX, 1296 * PX));
        }
        _ => panic!("expected the background"),
    }
    match cmds[3] {
        DrawCmd::Sprite { sheet, source, .. } => {
            assert_eq!(sheet, Sheet::Player2Run);
            assert_eq!(source.width, -419 * PX);
        }
        _ => panic!("expected the second runner"),
    }
    assert_eq!(
        cmds[7],
        DrawCmd::Line { from: Vec2::new(315 * PX, 1296 * PX), to: Vec2::new(355 * PX, 1296 * PX), color: Color::Blue }
    );
    assert_eq!(cmds[9], DrawCmd::Circle { center: Vec2::new(50 * PX, 60 * PX), radius: 10 * PX, color: Color::Black });
    assert_eq!(
        cmds[10],
        DrawCmd::Number { label: "Score: ", value: 0, at: Vec2::new(10 * PX, 1271 * PX), size: 20 * PX, color: Color::Black }
    );
}

#[test]
fn stack_pushes_match_on_click_and_runs_it() {
    let mut data = GameData::new(2304, 1296, 5);
    let mut stack = SceneStack::new(Scene::Menu(MenuScene), &mut data);
    assert_eq!(stack.depth(), 1);
    assert!(stack.is_running());
    stack.handle_input(&click_at(250, 300, true), &mut data);
    assert_eq!(stack.depth(), 2);
    assert!(matches!(stack.top(), Scene::Game(_)));
    stack.update(16, &mut data);
    match stack.top() {
        Scene::Game(g) => assert_eq!(g.players[0].vel.y, 4_800),
        _ => panic!("expected the match on top"),
    }
    let cmds = stack.draw(&data);
    assert_eq!(cmds.len(), 10);
}

#[test]
fn stack_pop_replace_and_quit() {
    let mut data = GameData::new(2304, 1296, 5);
    let mut stack = SceneStack::new(Scene::Menu(MenuScene), &mut data);
    stack.apply(SceneSwitch::Push(Scene::Win(WinScene)), &mut data);
    assert_eq!(stack.depth(), 2);
    stack.apply(SceneSwitch::Replace(Scene::Game(GameScene::new(5, 2304, 1296))), &mut data);
    assert_eq!(stack.depth(), 2);
    assert!(matches!(stack.top(), Scene::Game(_)));
    stack.apply(SceneSwitch::Pop, &mut data);
    assert_eq!(stack.depth(), 1);
    assert!(matches!(stack.top(), Scene::Menu(_)));
    assert!(stack.is_running());
    // popping the last scene ends the run and keeps the stack non-empty
    stack.apply(SceneSwitch::Pop, &mut data);
    assert_eq!(stack.depth(), 1);
    assert!(!stack.is_running());

    let mut other = SceneStack::new(Scene::Win(WinScene), &mut data);
    other.handle_input(&click_at(300, 300, true), &mut data);
    assert!(!other.is_running());
    assert_eq!(other.depth(), 1);
}

#[test]
fn entering_a_match_restarts_its_animation() {
    let mut data = GameData::new(2304, 1296, 5);
    let mut g = GameScene::new(5, 2304, 1296);
    g.walk_frame = 3;
    g.walk_timing_ms = 40;
    let mut stack = SceneStack::new(Scene::Menu(MenuScene), &mut data);
    stack.apply(SceneSwitch::Push(Scene::Game(g)), &mut data);
    match stack.top() {
        Scene::Game(g) => {
            assert_eq!(g.walk_frame, 0);
            assert_eq!(g.walk_timing_ms, 0);
        }
        _ => panic!("expected the match on top"),
    }
}
