//! Scene flow: which top-level scene is active and how the pause toggle and
//! the end-of-run presentation decide the next one.

use vstd::prelude::*;

use crate::level::LevelInit;
use crate::level::LevelPass;

verus! {

/// The top-level scenes of the game.
#[derive(Clone, Copy, PartialEq, Eq, Structural, Debug)]
pub enum GameScene {
    Start,
    InGame,
    GameOver,
}

impl Default for GameScene {
    fn default() -> (r: Self)
        ensures
            r is Start,
    {
        GameScene::Start
    }
}

impl GameScene {
    pub open spec fn next_spec(self) -> GameScene {
        match self {
            GameScene::Start => GameScene::InGame,
            GameScene::InGame => GameScene::GameOver,
            GameScene::GameOver => GameScene::Start,
        }
    }

    /// The scene that follows this one in the fixed cycle
    /// start -> in-game -> game-over -> start.
    pub fn next(&self) -> (r: GameScene)
        ensures
            r == self.next_spec(),
    {
        match self {
            GameScene::Start => GameScene::InGame,
            GameScene::InGame => GameScene::GameOver,
            GameScene::GameOver => GameScene::Start,
        }
    }
}

/// Whether the running game is paused.
#[derive(Clone, Copy, PartialEq, Eq, Structural, Debug)]
pub enum InGameState {
    Running,
    Paused,
}

impl Default for InGameState {
    fn default() -> (r: Self)
        ensures
            r is Running,
    {
        InGameState::Running
    }
}

impl InGameState {
    pub open spec fn next_spec(self) -> InGameState {
        match self {
            InGameState::Running => InGameState::Paused,
            InGameState::Paused => InGameState::Running,
        }
    }

    /// The opposite pause state.
    pub fn next(&self) -> (r: InGameState)
        ensures
            r == self.next_spec(),
    {
        match self {
            InGameState::Running => InGameState::Paused,
            InGameState::Paused => InGameState::Running,
        }
    }
}

/// The in-game scene: it toggles the pause state when the pause key goes
/// down. (The engine pauses physics time and raises the wait signal on the
/// transition.)
pub struct InGmaeScene;

impl InGmaeScene {
    /// Decide the next pause state from this tick's pause-key edge.
    pub fn update(pause_just_pressed: bool, state: InGameState) -> (r: Option<InGameState>)
        ensures
            pause_just_pressed ==> r == Some(state.next_spec()),
            !pause_just_pressed ==> r is None,
    {
        if pause_just_pressed {
            Some(state.next())
        } else {
            None
        }
    }
}

/// The pause overlay: its continue button resumes the game.
pub struct Paused;

impl Paused {
    /// Decide the next pause state from the continue button.
    pub fn update(continue_pressed: bool, state: InGameState) -> (r: Option<InGameState>)
        ensures
            continue_pressed ==> r == Some(state.next_spec()),
            !continue_pressed ==> r is None,
    {
        if continue_pressed {
            Some(state.next())
        } else {
            None
        }
    }
}

/// The game-over presentation: shows the outcome and offers the way back to
/// the start scene.
pub struct GameOverScene;

impl GameOverScene {
    /// The message shown for the level outcome that ended the run.
    pub fn message(outcome: LevelPass) -> (r: &'static str)
        ensures
            outcome.0 ==> r@ == "you win"@,
            !outcome.0 ==> r@ == "game over"@,
    {
        if outcome.0 {
            "you win"
        } else {
            "game over"
        }
    }

    /// Decide the next scene from the go-back button.
    pub fn update(go_back_pressed: bool) -> (r: Option<GameScene>)
        ensures
            go_back_pressed ==> r == Some(GameScene::Start),
            !go_back_pressed ==> r is None,
    {
        if go_back_pressed {
            Some(GameScene::GameOver.next())
        } else {
            None
        }
    }
}

/// What the start scene decides from one tick of its buttons.
#[derive(Clone, Copy, PartialEq, Eq, Structural, Debug)]
pub struct StartEffects {
    /// Begin a run at this level, if the play button was pressed.
    pub level_init: Option<LevelInit>,
    /// Scene to switch to, if any.
    pub next_scene: Option<GameScene>,
    /// The exit button asks the process to quit.
    pub exit: bool,
}

/// The start menu: play begins a run at level 0; exit quits.
pub struct StartScene;

impl StartScene {
    /// Decide the start-menu effects from the pressed buttons.
    pub fn update(play_pressed: bool, exit_pressed: bool) -> (r: StartEffects)
        ensures
            play_pressed ==> r.level_init == Some(LevelInit(0)) && r.next_scene == Some(
                GameScene::InGame,
            ),
            !play_pressed ==> r.level_init is None && r.next_scene is None,
            r.exit == exit_pressed,
    {
        if play_pressed {
            StartEffects {
                level_init: Some(LevelInit(0)),
                next_scene: Some(GameScene::Start.next()),
                exit: exit_pressed,
            }
        } else {
            StartEffects { level_init: None, next_scene: None, exit: exit_pressed }
        }
    }
}

} // verus!
