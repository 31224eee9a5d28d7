//! The scene protocol: the scenes of the game as one closed type, the directives
//! that their input and update phases return, and the stack that the driver runs.

use vstd::prelude::*;
use crate::draw::DrawCmd;
use crate::game_data::GameData;
use crate::game_scene::{GameModel, GameScene, lemma_initial_wf};
use crate::input::FrameInput;
use crate::menu_scene::{MenuScene, WinScene};

verus! {

/// A unit of game state with its own input, update and draw behaviour.
#[derive(Debug, PartialEq, Eq)]
pub enum Scene {
    Menu(MenuScene),
    Game(GameScene),
    Win(WinScene),
}

/// What a scene asks of the scene stack after its input or update phase; `Stay`
/// leaves the stack as it is.
#[derive(Debug, PartialEq, Eq)]
pub enum SceneSwitch {
    Stay,
    Push(Scene),
    Replace(Scene),
    Pop,
    Quit,
}

/// `Scene` as a mathematical value.
pub enum SceneModel {
    Menu,
    Game(GameModel),
    Win,
}

/// `SceneSwitch` as a mathematical value.
pub enum SwitchModel {
    Stay,
    Push(SceneModel),
    Replace(SceneModel),
    Pop,
    Quit,
}

impl View for Scene {
    type V = SceneModel;

    open spec fn view(&self) -> SceneModel {
        match self {
            Scene::Menu(_) => SceneModel::Menu,
            Scene::Game(g) => SceneModel::Game(g@),
            Scene::Win(_) => SceneModel::Win,
        }
    }
}

impl View for SceneSwitch {
    type V = SwitchModel;

    open spec fn view(&self) -> SwitchModel {
        match self {
            SceneSwitch::Stay => SwitchModel::Stay,
            SceneSwitch::Push(s) => SwitchModel::Push(s@),
            SceneSwitch::Replace(s) => SwitchModel::Replace(s@),
            SceneSwitch::Pop => SwitchModel::Pop,
            SceneSwitch::Quit => SwitchModel::Quit,
        }
    }
}

impl SceneModel {
    /// The bounds that a scene's arithmetic relies on.
    pub open spec fn wf(self) -> bool {
        match self {
            SceneModel::Game(g) => g.wf(),
            _ => true,
        }
    }

    /// The scene once entered: a match restarts its animation.
    pub open spec fn entered(self) -> SceneModel {
        match self {
            SceneModel::Game(g) => SceneModel::Game(
                GameModel { walk_frame: 0, walk_timing_ms: 0, ..g },
            ),
            _ => self,
        }
    }

    /// The scene after its input phase.
    pub open spec fn after_input(self, input: FrameInput) -> SceneModel {
        match self {
            SceneModel::Game(g) => SceneModel::Game(g.after_input(input)),
            _ => self,
        }
    }

    /// The directive that the scene's input phase returns.
    pub open spec fn input_switch(self, input: FrameInput, data: GameData) -> SwitchModel {
        match self {
            SceneModel::Menu => MenuScene::switch_for(input, data),
            SceneModel::Game(_) => SwitchModel::Stay,
            SceneModel::Win => WinScene::switch_for(input),
        }
    }

    /// The scene after its update phase of `dt` milliseconds.
    pub open spec fn stepped(self, dt: u32, data: GameData) -> SceneModel {
        match self {
            SceneModel::Game(g) => SceneModel::Game(g.stepped(dt, data)),
            _ => self,
        }
    }

    /// What the scene paints.
    pub open spec fn picture(self, data: GameData) -> Seq<DrawCmd> {
        match self {
            SceneModel::Menu => MenuScene::picture(),
            SceneModel::Game(g) => g.picture(data),
            SceneModel::Win => WinScene::picture(data),
        }
    }
}

impl SwitchModel {
    /// A scene that the directive brings in is well formed.
    pub open spec fn wf(self) -> bool {
        match self {
            SwitchModel::Push(s) => s.wf(),
            SwitchModel::Replace(s) => s.wf(),
            _ => true,
        }
    }
}

impl Scene {
    pub open spec fn wf(&self) -> bool {
        self@.wf()
    }

    /// Called when the scene becomes active.
    pub fn on_enter(&mut self, data: &mut GameData)
        ensures
            final(self)@ == old(self)@.entered(),
            old(self).wf() ==> final(self).wf(),
            *final(data) == *old(data),
    {
        match self {
            Scene::Menu(m) => m.on_enter(data),
            Scene::Game(g) => g.on_enter(data),
            Scene::Win(w) => w.on_enter(data),
        }
    }

    /// Called when the scene leaves the stack.
    pub fn on_exit(&mut self, data: &mut GameData)
        ensures
            final(self)@ == old(self)@,
            *final(data) == *old(data),
    {
        match self {
            Scene::Menu(m) => m.on_exit(data),
            Scene::Game(g) => g.on_exit(data),
            Scene::Win(w) => w.on_exit(data),
        }
    }

    /// The scene's input phase.
    pub fn handle_input(&mut self, input: &FrameInput, data: &mut GameData) -> (r: SceneSwitch)
        requires
            old(self).wf(),
        ensures
            final(self)@ == old(self)@.after_input(*input),
            r@ == old(self)@.input_switch(*input, *old(data)),
            final(self).wf(),
            r@.wf(),
            *final(data) == *old(data),
    {
        proof {
            lemma_initial_wf(data.screen_height);
        }
        match self {
            Scene::Menu(m) => m.handle_input(input, data),
            Scene::Game(g) => g.handle_input(input, data),
            Scene::Win(w) => w.handle_input(input, data),
        }
    }

    /// The scene's update phase, `dt` milliseconds on; no scene asks for a
    /// transition here.
    pub fn update(&mut self, dt: u32, data: &mut GameData) -> (r: SceneSwitch)
        requires
            old(self).wf(),
            old(data).run_frames > 0,
        ensures
            final(self)@ == old(self)@.stepped(dt, *old(data)),
            r@ == SwitchModel::Stay,
            final(self).wf(),
            *final(data) == *old(data),
    {
        match self {
            Scene::Menu(m) => m.update(dt, data),
            Scene::Game(g) => g.update(dt, data),
            Scene::Win(w) => w.update(dt, data),
        }
    }

    /// The scene's draw commands; drawing changes nothing.
    pub fn draw(&self, data: &GameData) -> (r: Vec<DrawCmd>)
        requires
            self.wf(),
        ensures
            r@ == self@.picture(*data),
    {
        match self {
            Scene::Menu(m) => m.draw(data),
            Scene::Game(g) => g.draw(data),
            Scene::Win(w) => w.draw(data),
        }
    }
}

/// The stack of scenes that the driver runs: only the top one is active. A
/// transition takes effect at once, so the update phase of a frame already runs
/// on a scene that its input phase pushed.
pub struct SceneStack {
    scenes: Vec<Scene>,
    running: bool,
}

/// `SceneStack` as a mathematical value.
pub struct StackModel {
    pub scenes: Seq<SceneModel>,
    pub running: bool,
}

impl View for SceneStack {
    type V = StackModel;

    closed spec fn view(&self) -> StackModel {
        StackModel { scenes: self.scenes@.map_values(|s: Scene| s@), running: self.running }
    }
}

impl StackModel {
    /// Never empty, and every scene well formed.
    pub open spec fn wf(self) -> bool {
        &&& self.scenes.len() >= 1
        &&& forall|i: int| 0 <= i < self.scenes.len() ==> (#[trigger] self.scenes[i]).wf()
    }

    /// The active scene.
    pub open spec fn top(self) -> SceneModel {
        self.scenes.last()
    }

    /// The stack with its top replaced by `s`.
    pub open spec fn with_top(self, s: SceneModel) -> StackModel {
        StackModel { scenes: self.scenes.drop_last().push(s), ..self }
    }

    /// The stack after a directive: `Push` enters the new scene on top, `Replace`
    /// swaps the top for it, `Pop` removes the top (popping the last scene ends the
    /// run instead), `Quit` ends the run.
    pub open spec fn applied(self, sw: SwitchModel) -> StackModel {
        match sw {
            SwitchModel::Stay => self,
            SwitchModel::Push(s) => StackModel { scenes: self.scenes.push(s.entered()), ..self },
            SwitchModel::Replace(s) => self.with_top(s.entered()),
            SwitchModel::Pop => if self.scenes.len() > 1 {
                StackModel { scenes: self.scenes.drop_last(), ..self }
            } else {
                StackModel { running: false, ..self }
            },
            SwitchModel::Quit => StackModel { running: false, ..self },
        }
    }

    /// The stack after the input phase: the top handles the input, then its
    /// directive is applied.
    pub open spec fn after_input(self, input: FrameInput, data: GameData) -> StackModel {
        self.with_top(self.top().after_input(input)).applied(self.top().input_switch(input, data))
    }

    /// The stack after the update phase.
    pub open spec fn stepped(self, dt: u32, data: GameData) -> StackModel {
        self.with_top(self.top().stepped(dt, data))
    }
}

impl SceneStack {
    pub open spec fn wf(&self) -> bool {
        self@.wf()
    }

    /// A running stack holding `first`, which is entered.
    pub fn new(first: Scene, data: &mut GameData) -> (r: SceneStack)
        requires
            first.wf(),
        ensures
            r@ == (StackModel { scenes: seq![first@.entered()], running: true }),
            r.wf(),
            *final(data) == *old(data),
    {
        let mut first = first;
        first.on_enter(data);
        let r = SceneStack { scenes: vec![first], running: true };
        assert(r@.scenes =~= seq![first@]);
        r
    }

    /// The driver keeps running frames.
    pub fn is_running(&self) -> (r: bool)
        ensures
            r == self@.running,
    {
        self.running
    }

    /// How many scenes are stacked.
    pub fn depth(&self) -> (r: usize)
        ensures
            r == self@.scenes.len(),
    {
        self.scenes.len()
    }

    /// The active scene.
    pub fn top(&self) -> (r: &Scene)
        requires
            self.wf(),
        ensures
            r@ == self@.top(),
    {
        &self.scenes[self.scenes.len() - 1]
    }

    /// Takes the top scene off.
    fn take_top(&mut self) -> (r: Scene)
        requires
            old(self).wf(),
        ensures
            r@ == old(self)@.top(),
            r.wf(),
            final(self)@ == (StackModel { scenes: old(self)@.scenes.drop_last(), ..old(self)@ }),
    {
        let ghost before = self@;
        let last = self.scenes.len() - 1;
        let r = self.scenes.remove(last);
        assert(self@.scenes =~= before.scenes.drop_last());
        assert(before.scenes[before.scenes.len() - 1].wf());
        r
    }

    /// Puts a scene on top.
    fn put_top(&mut self, s: Scene)
        ensures
            final(self)@ == (StackModel { scenes: old(self)@.scenes.push(s@), ..old(self)@ }),
    {
        self.scenes.push(s);
        assert(self@.scenes =~= old(self)@.scenes.push(s@));
    }

    /// Applies a directive.
    pub fn apply(&mut self, switch: SceneSwitch, data: &mut GameData)
        requires
            old(self).wf(),
            switch@.wf(),
        ensures
            final(self)@ == old(self)@.applied(switch@),
            final(self).wf(),
            *final(data) == *old(data),
    {
        match switch {
            SceneSwitch::Stay => {},
            SceneSwitch::Push(s) => {
                let mut s = s;
                s.on_enter(data);
                self.put_top(s);
            },
            SceneSwitch::Replace(s) => {
                let mut old_top = self.take_top();
                old_top.on_exit(data);
                let mut s = s;
                s.on_enter(data);
                self.put_top(s);
            },
            SceneSwitch::Pop => {
                if self.scenes.len() > 1 {
                    let mut old_top = self.take_top();
                    old_top.on_exit(data);
                } else {
                    self.running = false;
                }
            },
            SceneSwitch::Quit => {
                self.running = false;
            },
        }
    }

    /// The input phase of a frame: the top scene handles the input, and the directive
    /// it returns is applied at once.
    pub fn handle_input(&mut self, input: &FrameInput, data: &mut GameData)
        requires
            old(self).wf(),
        ensures
            final(self)@ == old(self)@.after_input(*input, *old(data)),
            final(self).wf(),
            *final(data) == *old(data),
    {
        let mut top = self.take_top();
        let switch = top.handle_input(input, data);
        self.put_top(top);
        self.apply(switch, data);
    }

    /// The update phase of a frame, `dt` milliseconds on.
    pub fn update(&mut self, dt: u32, data: &mut GameData)
        requires
            old(self).wf(),
            old(data).run_frames > 0,
        ensures
            final(self)@ == old(self)@.stepped(dt, *old(data)),
            final(self).wf(),
            *final(data) == *old(data),
    {
        let mut top = self.take_top();
        let switch = top.update(dt, data);
        self.put_top(top);
        self.apply(switch, data);
    }

    /// The draw commands of the frame: the top scene's alone.
    pub fn draw(&self, data: &GameData) -> (r: Vec<DrawCmd>)
        requires
            self.wf(),
        ensures
            r@ == self@.top().picture(*data),
    {
        self.top().draw(data)
    }
}

} // verus!
