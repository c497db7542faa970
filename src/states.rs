use vstd::prelude::*;

verus! {

/// Loading phases of the program.
#[derive(Clone, Copy, Debug, PartialEq, Eq, Structural)]
pub enum AppState {
    PreLoading,
    AssetLoading,
    Ready,
}

/// The coarse phases of play; everything scoped to `InGame` is rebuilt on entry.
#[derive(Clone, Copy, Debug, PartialEq, Eq, Structural)]
pub enum GameState {
    Startup,
    MainMenu,
    InGame,
    End,
}

/// Whether the fixed-tick clock runs.
#[derive(Clone, Copy, Debug, PartialEq, Eq, Structural)]
pub enum PauseState {
    Unpaused,
    Paused,
}

impl GameState {
    /// The main menu opens once loading has finished; from the main menu or
    /// the end screen, pressing fire starts a new game.
    pub fn next(self, app: AppState, fire_just_pressed: bool) -> (r: GameState)
        ensures
            self == GameState::Startup && app == AppState::Ready ==> r == GameState::MainMenu,
            (self == GameState::MainMenu || self == GameState::End) && fire_just_pressed ==> r
                == GameState::InGame,
            !(self == GameState::Startup && app == AppState::Ready) && !((self == GameState::MainMenu
                || self == GameState::End) && fire_just_pressed) ==> r == self,
    {
        match self {
            GameState::Startup => if app == AppState::Ready {
                GameState::MainMenu
            } else {
                self
            },
            GameState::MainMenu | GameState::End => if fire_just_pressed {
                GameState::InGame
            } else {
                self
            },
            GameState::InGame => self,
        }
    }

    /// Leaves the game for the end screen once the player's death countdown ran out.
    pub fn after_death_countdown(self, countdown_done: bool) -> (r: GameState)
        ensures
            self == GameState::InGame && countdown_done ==> r == GameState::End,
            !(self == GameState::InGame && countdown_done) ==> r == self,
    {
        if self == GameState::InGame && countdown_done {
            GameState::End
        } else {
            self
        }
    }
}

impl PauseState {
    /// The pause key toggles between paused and running.
    pub fn toggled(self, pause_just_pressed: bool) -> (r: PauseState)
        ensures
            !pause_just_pressed ==> r == self,
            pause_just_pressed && self == PauseState::Paused ==> r == PauseState::Unpaused,
            pause_just_pressed && self == PauseState::Unpaused ==> r == PauseState::Paused,
    {
        if !pause_just_pressed {
            return self;
        }
        match self {
            PauseState::Paused => PauseState::Unpaused,
            PauseState::Unpaused => PauseState::Paused,
        }
    }

    /// Simulation time that passes during a frame of `delta` milliseconds:
    /// none while paused, so that no timer advances.
    pub fn sim_delta(self, delta: u64) -> (r: u64)
        ensures
            self == PauseState::Paused ==> r == 0,
            self == PauseState::Unpaused ==> r == delta,
    {
        match self {
            PauseState::Paused => 0,
            PauseState::Unpaused => delta,
        }
    }
}

} // verus!
