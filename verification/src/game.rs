//! The session around the simulation: screens, pause, and the score board.

use vstd::prelude::*;

verus! {

/// Which screen the application shows.
#[derive(Clone, Copy, Debug, PartialEq, Eq, Hash, Structural)]
pub enum AppState {
    MainMenu,
    Game,
    GameOver,
}

/// Whether the simulation advances.
#[derive(Clone, Copy, Debug, PartialEq, Eq, Hash, Structural)]
pub enum SimulationState {
    Running,
    Paused,
}

impl Default for AppState {
    fn default() -> (state: AppState)
        ensures
            state == AppState::MainMenu,
    {
        AppState::MainMenu
    }
}

impl Default for SimulationState {
    fn default() -> (state: SimulationState)
        ensures
            state == SimulationState::Running,
    {
        SimulationState::Running
    }
}

/// The end of a run: how long the base stood, in whole seconds, and the level
/// it had reached.
#[derive(Clone, Copy, Debug, PartialEq, Eq, Structural)]
pub struct GameOver {
    pub time_alive: u64,
    pub base_level: i64,
}

/// The runs played in this session, oldest first, each as level reached and
/// seconds survived.
pub struct FinalScore {
    pub scores: Vec<(i64, u64)>,
}

impl Default for FinalScore {
    fn default() -> (board: FinalScore)
        ensures
            board.scores@ == Seq::<(i64, u64)>::empty(),
    {
        FinalScore { scores: Vec::new() }
    }
}

/// Appends a finished run to the score board.
pub fn update_final_score(final_scores: &mut FinalScore, event: &GameOver)
    ensures
        final(final_scores).scores@ == old(final_scores).scores@.push(
            (event.base_level, event.time_alive),
        ),
{
    final_scores.scores.push((event.base_level, event.time_alive));
}

/// The state that entering a session puts the simulation in.
pub fn pause_simulation() -> (next: SimulationState)
    ensures
        next == SimulationState::Paused,
{
    SimulationState::Paused
}

/// The state that leaving a session, or the resume button, puts the
/// simulation in.
pub fn resume_simulation() -> (next: SimulationState)
    ensures
        next == SimulationState::Running,
{
    SimulationState::Running
}

/// The simulation state after a frame in which the pause key was or was not
/// pressed: a press flips it, anything else leaves it as it is.
pub open spec fn toggled(pressed: bool, state: SimulationState) -> SimulationState {
    if !pressed {
        state
    } else if state == SimulationState::Running {
        SimulationState::Paused
    } else {
        SimulationState::Running
    }
}

/// Computes [`toggled`].
pub fn toggle_simulation(pressed: bool, state: SimulationState) -> (next: SimulationState)
    ensures
        next == toggled(pressed, state),
{
    if !pressed {
        state
    } else {
        match state {
            SimulationState::Running => SimulationState::Paused,
            SimulationState::Paused => SimulationState::Running,
        }
    }
}

/// The screen after `events` game-over events have arrived in a frame: any
/// event ends the run.
pub fn handle_game_over(events: usize, state: AppState) -> (next: AppState)
    ensures
        next == if events > 0 {
            AppState::GameOver
        } else {
            state
        },
{
    if events > 0 {
        AppState::GameOver
    } else {
        state
    }
}

/// The screen after a frame in which the start key was or was not held:
/// holding it enters the game from any other screen.
pub fn transition_to_game_state(pressed: bool, state: AppState) -> (next: AppState)
    ensures
        next == if pressed {
            AppState::Game
        } else {
            state
        },
{
    if pressed {
        AppState::Game
    } else {
        state
    }
}

/// The screen and the simulation state after a frame in which the menu key was
/// or was not held: holding it anywhere but in the main menu returns there and
/// pauses the simulation.
pub fn transition_to_main_menu_state(
    pressed: bool,
    app_state: AppState,
    simulation_state: SimulationState,
) -> (next: (AppState, SimulationState))
    ensures
        next == if pressed && app_state != AppState::MainMenu {
            (AppState::MainMenu, SimulationState::Paused)
        } else {
            (app_state, simulation_state)
        },
{
    let in_menu = match app_state {
        AppState::MainMenu => true,
        _ => false,
    };
    if pressed && !in_menu {
        (AppState::MainMenu, SimulationState::Paused)
    } else {
        (app_state, simulation_state)
    }
}

} // verus!
