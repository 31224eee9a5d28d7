//! The two scenes that bracket a match: the start menu and the win screen.

use vstd::prelude::*;
use crate::draw::DrawCmd;
use crate::game_data::GameData;
use crate::game_scene::{GameModel, GameScene};
use crate::geometry::{Color, Rect, SUBPIXELS, Vec2, px};
use crate::input::FrameInput;
use crate::scenes::{Scene, SceneModel, SceneSwitch, SwitchModel};
use crate::utils::check_collision_point_rect;

verus! {

/// The start screen.
#[derive(Clone, Copy, Debug, PartialEq, Eq, Structural)]
pub struct MenuScene;

/// The win screen.
#[derive(Clone, Copy, Debug, PartialEq, Eq, Structural)]
pub struct WinScene;

/// The clickable region of both screens, in micro-pixels.
pub open spec fn button() -> Rect {
    Rect { x: px(200), y: px(200), width: px(300), height: px(150) }
}

/// The clickable region of both screens, in micro-pixels.
pub fn button_rect() -> (r: Rect)
    ensures
        r == button(),
{
    Rect { x: 200 * SUBPIXELS, y: 200 * SUBPIXELS, width: 300 * SUBPIXELS, height: 150 * SUBPIXELS }
}

/// The mouse button went down over the button this frame.
pub open spec fn clicked(input: FrameInput) -> bool {
    input.mouse.left_pressed && button().holds(input.mouse.point())
}

/// Whether the mouse button went down over the button this frame.
fn click_on_button(input: &FrameInput) -> (r: bool)
    ensures
        r == clicked(*input),
{
    if input.mouse.left_pressed {
        let click = input.mouse.position();
        let rect = button_rect();
        check_collision_point_rect(&click, &rect)
    } else {
        false
    }
}

/// A line of text inside the button.
pub open spec fn label(text: &'static str, y: int) -> DrawCmd {
    DrawCmd::Text { text, at: Vec2 { x: px(210), y: px(y) }, size: px(20), color: Color::Black }
}

/// A line of text inside the button.
fn label_at(text: &'static str, y: i64) -> (r: DrawCmd)
    requires
        0 <= y <= 10_000,
    ensures
        r == label(text, y as int),
{
    DrawCmd::Text {
        text,
        at: Vec2 { x: 210 * SUBPIXELS, y: y * SUBPIXELS },
        size: 20 * SUBPIXELS,
        color: Color::Black,
    }
}

impl MenuScene {
    /// A click on the button starts a match: the directive then pushes a new
    /// `GameScene` for the session's screen.
    pub open spec fn switch_for(input: FrameInput, data: GameData) -> SwitchModel {
        if clicked(input) {
            SwitchModel::Push(SceneModel::Game(GameModel::initial(data.screen_height)))
        } else {
            SwitchModel::Stay
        }
    }

    /// The menu: a red button that says where to click.
    pub open spec fn picture() -> Seq<DrawCmd> {
        seq![
            DrawCmd::Clear { color: Color::White },
            DrawCmd::Rectangle { rect: button(), color: Color::Red },
            label("Click here", 205),
        ]
    }

    pub fn on_enter(&mut self, data: &mut GameData)
        ensures
            *final(data) == *old(data),
    {
    }

    /// Starts a match when the button is clicked.
    pub fn handle_input(&mut self, input: &FrameInput, data: &mut GameData) -> (r: SceneSwitch)
        ensures
            r@ == MenuScene::switch_for(*input, *old(data)),
            *final(data) == *old(data),
    {
        if click_on_button(input) {
            SceneSwitch::Push(Scene::Game(GameScene::new(5, data.screen_width, data.screen_height)))
        } else {
            SceneSwitch::Stay
        }
    }

    /// The menu has no update behaviour.
    pub fn update(&mut self, dt: u32, data: &mut GameData) -> (r: SceneSwitch)
        ensures
            r@ == SwitchModel::Stay,
            *final(data) == *old(data),
    {
        SceneSwitch::Stay
    }

    /// The menu's draw commands.
    pub fn draw(&self, data: &GameData) -> (r: Vec<DrawCmd>)
        ensures
            r@ == MenuScene::picture(),
    {
        let mut out: Vec<DrawCmd> = Vec::new();
        out.push(DrawCmd::Clear { color: Color::White });
        out.push(DrawCmd::Rectangle { rect: button_rect(), color: Color::Red });
        out.push(label_at("Click here", 205));
        assert(out@ =~= MenuScene::picture());
        out
    }

    pub fn on_exit(&mut self, data: &mut GameData)
        ensures
            *final(data) == *old(data),
    {
    }
}

impl WinScene {
    /// A click on the button quits.
    pub open spec fn switch_for(input: FrameInput) -> SwitchModel {
        if clicked(input) {
            SwitchModel::Quit
        } else {
            SwitchModel::Stay
        }
    }

    /// The win screen: a blue button with the final score.
    pub open spec fn picture(data: GameData) -> Seq<DrawCmd> {
        seq![
            DrawCmd::Clear { color: Color::White },
            DrawCmd::Rectangle { rect: button(), color: Color::Blue },
            label("You Win!", 205),
            DrawCmd::Number {
                label: "Final score: ",
                value: data.points,
                at: Vec2 { x: px(210), y: px(225) },
                size: px(20),
                color: Color::Black,
            },
            label("Click here to exit.", 250),
        ]
    }

    pub fn on_enter(&mut self, data: &mut GameData)
        ensures
            *final(data) == *old(data),
    {
    }

    /// Quits when the button is clicked.
    pub fn handle_input(&mut self, input: &FrameInput, data: &mut GameData) -> (r: SceneSwitch)
        ensures
            r@ == WinScene::switch_for(*input),
            *final(data) == *old(data),
    {
        if click_on_button(input) {
            SceneSwitch::Quit
        } else {
            SceneSwitch::Stay
        }
    }

    /// The win screen has no update behaviour.
    pub fn update(&mut self, dt: u32, data: &mut GameData) -> (r: SceneSwitch)
        ensures
            r@ == SwitchModel::Stay,
            *final(data) == *old(data),
    {
        SceneSwitch::Stay
    }

    /// The win screen's draw commands.
    pub fn draw(&self, data: &GameData) -> (r: Vec<DrawCmd>)
        ensures
            r@ == WinScene::picture(*data),
    {
        let mut out: Vec<DrawCmd> = Vec::new();
        out.push(DrawCmd::Clear { color: Color::White });
        out.push(DrawCmd::Rectangle { rect: button_rect(), color: Color::Blue });
        out.push(label_at("You Win!", 205));
        out.push(
            DrawCmd::Number {
                label: "Final score: ",
                value: data.points,
                at: Vec2 { x: 210 * SUBPIXELS, y: 225 * SUBPIXELS },
                size: 20 * SUBPIXELS,
                color: Color::Black,
            },
        );
        out.push(label_at("Click here to exit.", 250));
        assert(out@ =~= WinScene::picture(*data));
        out
    }

    pub fn on_exit(&mut self, data: &mut GameData)
        ensures
            *final(data) == *old(data),
    {
    }
}

} // verus!
